use centrifuge_pallets::transfer_allowlist::{
    AccountId32, AllowanceDetails, DomainAddress, Location, MultiLocation,
};
use hex::FromHex;

const SENDER: [u8; 32] = [0u8; 32];

#[test]
fn from_account_works() {
    let a = AccountId32::new(SENDER);
    let l = Location::from(a);
    assert_eq!(l, Location::Local(a))
}

#[test]
fn from_xcm_address_works() {
    let xa = MultiLocation::default();
    let l = Location::from(xa.clone());
    assert_eq!(l, Location::XCMV1(MultiLocation::default()))
}

#[test]
fn from_domain_address_works() {
    let da = DomainAddress::EVM(
        1284,
        <[u8; 20]>::from_hex("1231231231231231231231231231231231231231").expect(""),
    );
    let l = Location::from(da);
    assert_eq!(l, Location::Address(da))
}

#[test]
fn default_location_encodes_here() {
    assert_eq!(MultiLocation::default().encoded, vec![0u8, 0u8]);
}

#[test]
fn default_allowance_is_open_forever() {
    let d = AllowanceDetails::default();
    assert_eq!(d.allowed_at(), 0);
    assert_eq!(d.blocked_at(), u64::MAX);
}

# centrifuge_pallets

Verified state machines of three Centrifuge chain pallets, and the weight
tables of two of them.

- `src/investments/`: invest and redeem orders on an investment, their
  processing, fulfillment at a price, and collection.
- `src/order_book/`: placing, cancelling and filling swap orders between
  registered assets; order ids are Blake2-256 hashes of SCALE encodings.
- `src/transfer_allowlist.rs`: the locations a transfer may go to.
- `src/weights/`: benchmarked call weights.
- `src/arith.rs`: the `sp_arithmetic` fixed-point operations the
  investments pallet uses.

Every call takes what the runtime knows (pre-conditions, metadata, whether
an amount can be reserved) as plain values and returns the effects it needs
the runtime to perform, in order, with its result. `app/` performs those
effects against a runtime and holds SCALE-encodable copies of the stored
values. When an effect or the call fails, it restores the pallet's own
storage; the effects already performed on other pallets are undone only
where the runtime runs the call inside its own storage transaction.

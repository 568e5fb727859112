# otap-df-pdata

Telemetry data for the OTAP dataflow, with its contracts proved by Verus.

- `src/model`: OTLP messages (common, logs, traces, metrics, profiles) and
  their mathematical models; doubles are held as IEEE-754 bit patterns.
- `src/otap`: the OTAP profiles record batches, held as plain columns.
- `src/encode`: builders of the profiles record batches, and the laws that a
  lookup table transposed by them, and a whole payload that holds profiles
  data, read back unchanged.
- `src/otlp`: reconstruction of OTLP profiles data from the record batches,
  validation of every table-referencing index, and the law that a tree
  flattened into root rows is regrouped into the same tree.
- `src/views`: read access to profiles data through backend-agnostic traits.
- `src/testing`: fixtures and a synthetic data generator.
- `app`: the protobuf wire form of profiles data (prost messages and
  conversions) and the encoder's byte output.

The record batches are held as plain typed columns rather than arrow arrays:
the library neither builds nor reads an arrow `RecordBatch`, and `app` has
no converter between the two. The `arrow` dependency is declared because the
project's record batches are arrow batches, but nothing here calls it.

# shbt-recon

Verified core of the SHBT reconstruction workspace, written in Verus.

- `src/` is the library, every function proved against its `requires` /
  `ensures`: the SECDED Hamming(72,64) code (`ecc`), the dark-ledger frame
  (`frame`), telemetry frames, CRC-32 and the SPSC frame ring (`telemetry`),
  the GDSII mask stream and the STEP solid document (`gdsii`, `step`), the
  gate report (`gates`), the interposer stackup, the GST self-healing
  channel, the LANR power ledger and the integer generator behind the
  Monte Carlo draws. Public `lemma_*` proof functions state the laws that
  span several functions (SECDED correction and detection, the frame image,
  the GDSII record chain, the closed STEP face loops, the LANR demand floor).
- `tests/` runs the library on concrete values.
- `app/` is the `shbt-recon` command (`verify`, `export-eda`) with what the
  library does not hold: the floating-point models, file output, POSIX
  shared memory and the bindings to the C kernel.

# self_writer

The logic of a pressure self-writer (a battery-powered recorder that measures
the frequencies of a pressure and a temperature sensor and stores them in QSPI
flash), written in Verus with its behaviour stated in contracts and proved.

## Layout

- `src/main_data_storage/`: the block storage: geometry, the mapping of
  blocks onto one or two chips, the bookkeeping of written blocks and of the
  erase protocol, the storage context and core, the shared runtime figures,
  and the pages of difference-coded samples. Each storage has one
  bookkeeping value, owned by its context (or core) and lent by `&mut` to
  whatever acts on it, so every part of the device sees the same state.
- `src/qspi_storage/`: the storage on QSPI NOR flash chips: reads split at
  block and 16 MiB segment boundaries, block writes, the start-up scan of
  written blocks, chip identification and the commands of the chip driver.
- `src/qspi/`: the QSPI peripheral: settings, the register values of each
  command, the ABR and PIR register fields, the channel interface.
- `src/protobuf/`: the host protocol: request headers, settings checks and
  updates, password changes, the monitoring reset, device information,
  measured values, and the handling of a whole request.
- `src/clocking/`: calendar time, RTC chip register coding, clock prescaler
  and flash wait-state selection, the RTC wake-up timer.
- `src/scsi/`: mode-parameter headers and the formatting capacities list.
- `src/self_writer.rs`, `src/bench.rs`: the decisions of the recording loop
  and of the host benchmark of the packing.
- `src/laws.rs`: properties that span several functions.
- `app/`: what the library leaves to its host: serde copies of the settings,
  floating-point conversions, asynchronous header reading, the benchmark's
  command line.
- `tests/`: tests of the library through its public interface.

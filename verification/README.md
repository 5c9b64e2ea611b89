# flash_benchmark

Benchmarks the flash of a connected Espressif device: how long a connection
takes, and how fast regions are written, read back and skipped. The benchmark
overwrites the region it is pointed at.

`src/` is the verified library. It decides and computes; it does no I/O and no
floating-point arithmetic.

- `args`: the arguments and their validation
- `run`: the steps of a benchmark and the phases of a size
- `visit`: the inspection of the device and the connections that are timed
- `phase`, `phase_laws`: a phase as a state machine, from its first iteration to
  the reset or to the first failure
- `iteration`: what an iteration does and what has to hold before its rate counts
- `pattern`: the bytes that are written
- `region`: the region of one size: what is written where, and what it should hold
- `transfer`, `transfer_laws`: reading a region through the flasher stub or the
  ROM loader, as state machines fed with the answers of the device
- `digest`: MD5 digests of flash contents
- `readback`: comparing what was read with what was written
- `progress`, `progress_laws`: the state and the text of the progress line
- `results`: the results, by size and phase
- `report`: the header and the report
- `text`: numbers and columns as characters
- `flash`: the errors of flash operations

`app/` is the program around it: command line, serial connection, clock,
terminal and statistics.

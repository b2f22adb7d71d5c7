# db2lib

Verified building blocks for small Db2 administration tools, written in
Verus.

- `src/` is the verified library: DSN redaction (`dsn`), name checks
  (`identifier`), catalog queries and row decisions (`catalog`), table
  maintenance (`maintenance`), the engine-owner check on `ps` output
  (`instance`), the decompression byte budget (`limited`), the XML stream
  verdict (`xml_scan`), gzip detection (`gzip`), settings (`config`), the
  lock file (`lockfile`) and the program's exit-code logic (`run`). The
  text model they share is in `text`; the few standard-library text
  functions trusted without proof are in `conversions`.
- `app/` is the program around it: environment, files, `ps`, ODBC and the
  XML reader, each step handing plain values to the library.
- `tests/` runs the library on concrete inputs.

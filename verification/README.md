# perfmode

Performance control for ASUS TUF laptops: fan boost mode, thermal policy,
keyboard backlight and battery charge limit, through the sysfs nodes of the
`asus-nb-wmi` or `faustus` drivers.

Layout:

- `src/` is the library, verified with Verus.
  - `driver.rs`: the known sysfs nodes, a snapshot of what probing them found
    (`Sysfs`), and how the node serving a subsystem is located
    (`resolve_path`, `detect_all`).
  - `operations.rs`: the encoding of modes as sysfs values (`decode`), the
    reading of a subsystem (`get_current`), the settings behind each command
    and profile, the running of a profile (`ProfileRun`), and the status
    report.
  - `cli.rs`: the commands, and what each one asks for (`Cli::request`).
  - `error.rs`: the errors.
  - `text.rs`: whitespace trimming and decimal rendering.
  - `laws.rs`: properties across functions, such as reading back what a
    write wrote.
- `app/` is the program: command-line parsing with clap, probing and reading
  the sysfs nodes, writing values, printing, and logging.
- `tests/` holds the tests.

The program probes every known node once (existence, permission bits and
contents), hands the snapshot to the library, and carries out the write or
print that the library decides on.

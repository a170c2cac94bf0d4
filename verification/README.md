# qemu_wrapper

Runs QEMU so that an interrupt (SIGINT, SIGHUP, SIGQUIT, SIGTERM) becomes an ACPI
`system_powerdown` sent over QEMU's monitor, and exits the way the guest asked QEMU to exit.

- `src/` is the verified library: the command line (`arguments`, `number`), the QEMU command
  (`command`, `text`), the decisions of the process that supervises QEMU (`supervisor`,
  `signals`, `terminal`, `raw_mode`), wait statuses (`wait_status`), the ready plugin's configuration and
  trigger (`ready`), and the test guest's arithmetic (`guest`).
- `app/` is the program around it: signal masks, `fork`, `pselect`, the monitor socket, the
  terminal, spawning QEMU. It also holds, unused, the impls through which QEMU would drive the
  ready plugin; the loadable plugin library itself is not built by this crate.
- `tests/` runs the library on concrete inputs.

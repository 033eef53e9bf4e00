# uniedge

Verified core of a tiny aarch64 unikernel that boots on QEMU `virt`, finds a
virtio-net device and answers HTTP on port 8080 with `UniEdge is alive!`.

- `src/` is the library, checked by Verus:
  - `console` frames text for the PL011 serial line (`\n` becomes `\r\n`);
  - `bootfx` builds the boot animation as a script of writes and pauses;
  - `dtb` decides whether the `fdt` crate can look a node up in a device tree
    blob without panicking and, if so, does the lookup with it;
  - `platform` drives the search for the virtio-mmio network device: the
    device-tree candidate first, then the slots of the window;
  - `time` does the generic-timer arithmetic (uptime, busy-wait deadlines);
  - `net` holds the service configuration, the HTTP response and the state
    machine that drives the TCP connection.
- `app/` is the kernel around it: heap setup, register access, the
  virtio-net driver and the smoltcp polling loop.
- `tests/` exercises the library on concrete values.

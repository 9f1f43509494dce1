# dwmac

A driver core for the Synopsys DesignWare Ethernet QoS controller (DWMAC) as found on
the StarFive JH7110, written in Verus with its behaviour stated in contracts and proved.

- `src/` — the verified library: descriptor words (`descriptor`), the buffer pool
  (`mempool`), descriptor rings (`ring`), the network interface with transmit, receive
  and interrupt handling (`nic`), the tutorial bring-up as a state machine (`bringup`),
  PHY access through the MDIO port (`phy`), the bring-up routines of the JH7110 (`dwc_init`), the
  register map and status-word decoders (`regs`, `dwc_const`), and register programs
  with their meaning on a register file (`mmio`).
- `app/` — the platform layer: volatile register and DMA-memory access, the platform
  hooks (`DwmacHal`), the waits on the hardware, and logging.
- `tests/` — tests of the library on concrete values.

Every routine that touches registers returns the register operations it performs;
the platform layer carries them out.

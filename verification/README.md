# vl

Board support for the STM32VLDISCOVERY, written in Verus.

- `src/` is the verified library: a statically allocated vector
  (`collections`), a guard for buffers lent to a DMA channel (`dma`), the
  prescaler and auto-reload values of the periodic timer and the decisions on
  its update flag (`timer`), the baud rate register fields and the status flag
  decisions of the serial interface (`serial`), the bit set/reset words of the
  user LEDs (`led`), and the PWM period and pulse compare values of the servo
  output (`servo`). The bus clock frequencies are in `frequency`.
- `app/` holds what touches the hardware: the register accesses through the
  `stm32f100xx` peripheral API, the timeout future, and the start-up code.
- `tests/` runs the library on concrete values.

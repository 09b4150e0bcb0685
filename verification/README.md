# rf24

A driver for the nRF24L01 2.4 GHz transceivers, with a fake BLE advertiser
built on it, verified with Verus.

## How the driver talks to the radio

Each operation of the driver (`rf24::Rf24`, through the traits of
`prelude`) is an ordinary function that asks a `transcript::Transcript` to
perform its actions in turn: SPI transfers, changes of the CE pin and
delays. The transcript replays the exchanges already performed and stops
the operation at the first one that is not recorded yet. Whoever owns the
hardware performs that action, records the reply and runs the operation
again. The contracts state, for every history of exchanges, what the
operation asks for, what it returns and what it leaves cached.

## Layout

- `src/`: the verified library.
  - `rf24/`: the driver, one module per feature; `rf24/properties.rs`
    holds what the operations leave cached once they complete.
  - `config.rs`, `bit_fields.rs`, `types.rs`: the configuration and the
    register fields.
  - `ble/`: bit reversal, whitening and CRC24 (`data.rs`), the fake BLE
    device (`radio.rs`), the services and the decoding of advertisements
    (`services.rs`), and what a receiver decodes of an advertisement
    (`round_trip.rs`).
- `tests/`: the tests, run against recorded exchanges.
- `app/`: the driver on embedded-hal hardware (it performs the pending
  actions), the printing of the radio's details, and the temperature in
  Celsius (floating point).

# openprot

Verified building blocks of a root-of-trust firmware: a USB device stack with
two USB classes (TPM over USB, CDC-ACM serial), the flash IPC protocol, the
TPM platform layer and the decision logic of the crypto services. Every item
under `src/` is checked by Verus against its `requires`/`ensures` contract.

The device interfaces (`UsbDriver`, `TpmDevice`, `Flash`, and for the crypto
hardware `Sha2Engine`, `HmacEngine`, `AesEngine`, `AsymmetricEngine`,
`Sha256Hasher`) describe each call in spec functions: a record of the calls
made with their arguments and answers, and a model of digest and tag
contexts.
The contracts of the handlers speak of that record, so they say what each
device receives and how its answers decide the result. Implementations
written as plain Rust do not keep the record; the contracts hold of those that do.

Layout:

- `src/hal_usb.rs`, `src/descriptor.rs`, `src/driver.rs`: control requests,
  SETUP packets, descriptor encodings, the driver and packet interfaces.
- `src/usb_stack/`: endpoint 0 handling, actions run on a driver, transfer
  accumulation, a descriptor table.
- `src/usbtpm.rs`, `src/cdc_acm.rs`: the USB classes.
- `src/flash/`: flash wire format, server dispatch, client requests.
- `src/tpm_platform/`: NV storage in RAM, clock, lifecycle and fixed answers.
- `src/tpm_crypto.rs`, `src/tpm_drbg.rs`, `src/crypto_*.rs`,
  `src/crypto_traits/`: opcodes, the crypto server's dispatch and context
  tables, AES requests, the TPM's random generator and backend traits.
- `src/gpio_port.rs`: GPIO error kinds and port traits.
- `app/`: formatting through `ufmt`, the global platform state and timer
  register, the flash IPC loop and the USB bridge loop.

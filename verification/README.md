# factory-machine-model

The gateway/driver contract for factory-floor automation, modelled on the
OPC UA for Machinery (OPC 40001-1) and OPC UA for ISA-95 Job Control
(OPC 10031-4) companion specifications, written in Verus.

- `src/`: the verified model: machine nameplate (`identification`), the
  `MachineryItemState` / `OperationMode` state machine (`state`), ISA-95 job
  orders and job states (`job`), telemetry fields and readings (`telemetry`),
  and the machine descriptor with its job-payload formats (`descriptor`).
- `app/`: the runtime half: the async `MachineDriver` trait and its
  object-safe `DynMachineDriver` facade, serde forms of the model types, and
  the `f64` coercion of readings.
- `tests/`: tests of the library.

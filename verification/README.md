# application_gateway

Verified logic of two Hyperledger Fabric gateway client samples,
asset-transfer-basic and asset-transfer-events.

- `src/` is the verified library:
  - `text`: decimal rendering of integers, lossy UTF-8 decoding;
  - `asset_id`: asset identifiers made from the clock;
  - `directory`: the choice of the credential file of a directory;
  - `json`: pretty-printing of JSON through `serde_json`;
  - `ledger`: chaincode calls (with how each is sent), commit status
    requests and event queries as plain data;
  - `report`: printed lines and what a sample does after a step;
  - `basic`, `events`: the calls each sample makes and what it prints and
    does for each outcome, including how the event stream is followed.
- `app/` is the program around it: reading credentials, talking to the
  gateway through `fabric-sdk`, and printing. `app basic` (the default) and
  `app events` run the two samples.
- `tests/` runs the library on concrete values.

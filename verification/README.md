# detectors

Four Solidity vulnerability detectors, verified with Verus:

- `bridge_token_minting` — mint functions of bridge contracts without access
  control, message validation or amount limits;
- `delegatecall_user_controlled` — `delegatecall` to a target that the caller
  controls;
- `external` — low-level `.call` / `.staticcall` / `.send` whose result is not
  checked;
- `timestamp` — dependence on `block.timestamp`, `block.number`,
  `block.difficulty` or `now`.

Supporting modules: `ast` (the parts of a parsed contract the detectors read),
`detector` (metadata, findings and the analysis context) and `text`
(character-level search, line splitting and comment stripping, specified over
`Seq<char>`).

Every detector's `detect` is specified exactly: its `ensures` gives the
sequence of findings as a spec function of the context. These are the
findings before the project-wide false-positive filter
(`filter_fp_findings`), which this library does not apply. `try_detect`
checks first that the line spans of the functions whose source is read are
well formed, and gives `None` where reading one would fail. Each module ends with
its laws as proof functions. Case mapping comes from std (`str::to_lowercase`) through one small trusted
wrapper whose result is named by an uninterpreted spec function; Unicode
whitespace is the fixed `White_Space` set, written out in `text`.

The classification of the contract (interface, library, proxy, test
contract) and the access-control-modifier check of a function's source are
inputs in `ContractTraits` and `Function::access_modifier_guarded`.

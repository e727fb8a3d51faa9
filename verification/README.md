# policyengine_uk

A UK tax-benefit microsimulation engine. The verified library (`src/`) holds the
parts of the engine whose behaviour can be stated exactly and proved with Verus:

- `overlay`: reforms as YAML/JSON overlays deep-merged into the baseline parameter
  document, with the merge laws (inheritance, override, idempotence, merging with
  itself, well-formedness).
- `linking`: linking Family Resources Survey households, benefit units and persons by
  their survey keys, and the consistency of the resulting hierarchy.
- `sections`: the concatenated-CSV input protocol.
- `text`: the field formats of the clean CSVs (integers, booleans, id lists), the
  thousands-grouped numbers of the report and the parameter file names, with their
  round trips.
- `entities`: regions, sexes, tenures and dwelling types and how each survey codes them.
- `surveys`: survey file names, the WAS round, the SPI age bands and the LCFS product
  names.
- `calibration`: how calibration targets name their variables, entities and
  aggregations.
- `deciles`: how ranked households are cut into income deciles.

`app/` is the command-line program around it: file I/O, the floating-point tax and
benefit calculations, the imputation models and the report.

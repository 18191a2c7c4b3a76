# frtb_engine

Measure recipes of the FRTB standardised approach (sensitivities-based
method and default risk charge), verified with Verus.

`src/` holds the verified library:

- `types`, `recipe`: scenarios, return metrics, jurisdictions, risk classes,
  input columns; the column expressions (`MeasureExpr`), charge calculations
  (`ChargeRecipe`) and measures (`MeasureSpec`) as plain values.
- `drc`, `commodity`, `vega`, `csr_nonsec_totals`, `csr_sec_ctp_curvature`,
  `csr_sec_ctp_delta`: the recipes and measure lists of each risk class.
- `bucket`, `grouping`, `commodity_buckets`: bucket labels, grouping of rows
  into curves and buckets, and the correlation structure of a bucket.
- `calculators`: the expression that each calculator of a catalogue builds.
- `overrides`: the names under which a request overrides a charge parameter,
  and whether a parameter takes an override or the scenario's value.
- `errors`: errors of the Python bindings, their debug text and the
  exceptions they become.
- `laws`: properties proved across the functions.

`app/` holds the floating-point arithmetic of the commodity delta charge,
the parsing of overridden parameters, and the error type with the
standard error traits.

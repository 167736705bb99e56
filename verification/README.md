# build_printers

Builds printer definitions for the P3D slicer from two printer databases: the Grid.Space
(Kiri:Moto) device descriptions and the Cura printer and extruder definitions.

The library (`src/`) is verified with Verus:

- `named_map` — a map from names to values that keeps insertion order (the catalogues of
  definitions and the placeholder table).
- `inherit` — looking a setting up along Cura's `inherits` chains.
- `cura`, `gridapps` — the two input formats and what each definition says.
- `gcode` — G-code placeholder resolution and the checks for keywords outside comments.
- `p3d` — building, checking and reconciling printer definitions.
- `catalog` — merging the printers of both sources by comparison key.
- `text`, `values` — string helpers and the representation of floating-point values.

The program (`app/`) clones the databases, parses the JSON, calls the library, prints what it
reports and writes one JSON file per printer.

# euclid (3d transforms), verified

Typed 3d transforms — 4 by 4 matrices in row-major order acting on row vectors —
generic over the scalar type, with their contracts proved by Verus.

Layout:

- `src/num.rs` — the scalar traits (`Zero`, `One`, `Trig`, `ApproxEq`) and the words
  contracts use for the scalar's operators (`plus`, `times`, ..., `obeys_*`, `*_defined`).
- `src/matrix.rs` — the model: `Matrix4`, and every formula of the library (product,
  determinant, adjugate, rotation, projection, ...) in the order the code evaluates it,
  with the predicates saying where each formula can be evaluated.
- `src/transform3d.rs` — `Transform3D` and its methods; each states its result on the model.
- `src/transform2d.rs`, `src/geom.rs`, `src/units.rs` — the 2d transforms, points,
  vectors, rectangles, angles and units that 3d transforms act on.
- `src/laws.rs` — laws of the model: identity and associativity of the product,
  composition of translations and scales, transforms of points under a product, ...
- `src/signed_sum.rs`, `src/laws_inverse.rs` — sums of signed terms over a commutative
  ring, and with them the law that the inverse is an inverse on both sides, over a field.
- `src/laws_determinant.rs`, `src/laws_rotation.rs`, `src/laws_bounds.rs`,
  `src/laws_projective.rs` — the determinant of the identity, of a scale and of a
  transpose; rotations (the axis is fixed; about a coordinate axis they compose by adding
  angles and are proper); the bounds of a transformed rectangle; and, over an ordered
  field, projecting points through products, translations, `ortho` and the backface test.
- `app/lib.rs` — what rests on outside traits: `serde`, `mint`, the panicking `cast`,
  and `Debug` output that abbreviates the identity.

Results are stated for scalar types whose operators obey vstd's specifications of
`core::ops` and `core::cmp`; where they do not, contracts state nothing about values.

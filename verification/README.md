# lib

Generation of default trait method bodies (`Clone`, `Debug`, `Default`,
`Hash`) and the "add return type" assist, stated and proved with Verus.

- `src/adt.rs`: the type definitions that bodies are generated for.
- `src/ast.rs`: the syntax that the generators build, with its mathematical view.
- `src/numeral.rs`: decimal numerals for `arg0`, `self.1` and the like.
- `src/gen_trait_fn_body.rs`: the generators, the bodies they produce stated
  as spec functions, and the laws relating them.
- `src/add_return_type.rs`: when the assist applies and the edit it makes.
- `app/lib.rs`: reads these models out of the `syntax` and `hir` trees and
  writes the generated syntax back with `make` and `ted`.

# chalk_lowering

Answers the questions that the trait solver [chalk](https://github.com/rust-lang/chalk) asks about
a Rust program: its traits, impls, associated types, functions, closures, opaque types, names and
variances. The answers are computed by executable Rust whose contracts are proved with Verus.

- `db`, `hir`, `ids`: what is known of the program, and the identifiers on both sides.
- `ir`, `rust_ir`: terms and data as the solver reads them, each with a mathematical view.
- `bound_var`, `shift`, `shift_laws`: variables that count binders, and moving terms through
  binders. The arithmetic on variables is chalk's own.
- `mapping`, `well_known`, `names`: names for definitions, in both directions.
- `impls`, `datums`, `opaque`, `context`: the answers.
- `laws`: what holds between the answers. Whatever one answer lists can be asked for, for example,
  and what comes back belongs to where it was listed.

`app/` puts the solver on top: it holds terms in memory, converts them in both directions and
implements chalk's database trait with the library's answers. Before each call it checks what the
library requires.

# intentc

The verified front half of a compiler for `.intent` programs: the checker, the
formatter and the diagnostics.

- `diagnostic` renders messages against one source file or a map of several,
  as text or as JSON.
- `format` writes a parsed program in canonical form, with its comments.
- `checker` resolves names and aliases, turns methods and implementations into
  functions, specialises generic functions, and checks types, ownership,
  effects, tasks and contracts. What only a prover or the machine's
  floating-point unit can tell is asked for: `check` takes the answers given so
  far and returns the typed program, the list of errors, or the next question.

Each executable function states its result as a spec function over the views of
its arguments. Beside these stand public proof functions with what holds of the
library as a whole: that an accepted program is well typed, has its declared
fields and an arm for every value, and returns on every path; what well typed
means is defined in `typing`, which takes a variable at the type it is used
with and a tuple that is taken apart at the types written for it, and leaves
open an operand that never runs; which effects a pure body is free of, which
variables a branch drops, that every comment is written once and in order
around the text of the program, that a JSON string stands for the text it was
written from, that merged file maps keep their diagnostics, and so on.

`app/` drives the checker: it answers floating-point questions and passes
obligations on to a prover.

# rlib

Bindings to the embedded R runtime.

- `src/` is the verified library: the numbering of R's value types and parse
  outcomes, the interpreter handle, the walk over the elements of an R
  vector, and the decisions taken on what the runtime reports (a parse
  status, an evaluation's error flag, a vector's type and length).
- `app/` is the program around it: the declarations of R's C entry points,
  the calls into the runtime, the handles that release protected values when
  dropped, and an example `main`.
- `tests/` exercises the library without a runtime.

# signals_transform

A transform of JavaScript programs that makes React components track the signals
that they read. Each call of a tracked component begins with a call of
`useComponentTracking` and ends with a call of what that returned:

```js
import { useComponentTracking as _useComponentTracking } from "@react-typed-forms/core";
function A() {
  var stop = _useComponentTracking();
  try {
    return <div>Hello</div>;
  } finally {
    stop();
  }
}
```

Functions that hold JSX and whose name begins with a capital letter are tracked,
where they stand outside every other declaration. Functions in object literals
are tracked on request alone. A block comment with `@trackControls` asks for
tracking, and one with `@noTrackControls` forbids it.

## Layout

- `src/` is the transform, verified with Verus. It works on a tree of its own
  (`ast`), which records the parts of a program that matter. `policy` says which
  functions are tracked, `visitor` and `transform` are proved to do what it says,
  and `laws` states what holds of the whole.
- `app/` is the plugin around it: it reads the options, turns the syntax tree of
  SWC into the library's tree, and writes the result back.
- `tests/` holds tests on trees, and tests on source text in `source_text.rs`.

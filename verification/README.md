# GPUI Studio core

The verified core of a native visual builder: review comments on live elements, the component
documents and their inspector, layer lists, pointer and key handling, the commands and resources
that tools use, and the events of the shell.

`src/` is a Verus library. Each module states what it does over mathematical models of the data:

| Modules | About |
| --- | --- |
| `annotations`, `annotation_laws`, `review` | the document of review comments and its editor |
| `components`, `definitions`, `keyed`, `presets`, `runtime` | components, their definitions and running states |
| `inspector`, `values`, `identifiers`, `edit_session` | reading and writing what people type |
| `tree_queries`, `tree_edits`, `tree_session`, `drag` | the node trees of components and drops into them |
| `documents`, `session`, `studio`, `panels` | what is open, selected and shown |
| `layer_rows`, `panel_rows`, `overlays`, `surfaces`, `stub`, `excerpt` | what panels, overlays and previews show |
| `state_hooks`, `event_hooks`, `dispatch`, `events`, `canvas` | the bindings of the shell, gestures and keys |
| `commands`, `execution`, `resources`, `history` | tools, live documents and watched files |
| `text`, `text_set`, `float_bits`, `automation` | texts, ordered sets of them, numbers and the window's tree |

Functions named `law_..` are proofs of what holds of the library as a whole.

`app/` is the ordinary Rust around it: the annotation document on disk, JSON for tools, window
coordinates, what the shell reads and writes, drags, and the loop that drives a session over the
traits in `app/services.rs`.

`tests/` runs the library on concrete values.

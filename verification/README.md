# guest_components

The decisions of the components that run inside a confidential guest, verified
with Verus, and a thin program around them.

`src/` is the verified library:

- `timeout` chooses the timeout of a request and makes the context that carries it.
- `cdh`, `token`, `kms` and `image` make the requests of the clients and their errors.
- `resource` is the guard in front of resources that no workload may read.
- `hub`, `volume` and `pull` decide what the data hub does next when it fetches a
  resource, activates a volume or pulls an image.
- `storage` holds the commands of LUKS2 volumes, the order in which a volume is set
  up and undone, and what always holds of it (`mount_laws`).
- `stream` makes layer digests and decides what becomes of a layer.
- `sequence` and `text` are what the others are built on.

What involves files, sockets or processes is handed out as a step, and the library
is told how the step ended. A function named `law_..` states what holds across
several functions.

`app/` performs the steps; `tests/` runs the library on concrete values.

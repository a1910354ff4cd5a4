# rustnn

Graphs of the Web Neural Network API (WebNN), and their conversion to TensorRT networks, as a
verified library.

## Layout

`src/` is the library. Verus proves every function in it against its contract, but for two that call
code outside of it and whose contracts are believed: the SeaHash of the `seahash` crate, in `digest`,
and the escaping with which the standard library shows a string, in `text`.

- `data_type`: the element types, how much storage they take, and the packing of four-bit values.
- `graph`: operands, shapes, constants and operations; the checks on lists of inputs and outputs;
  where the bytes of a constant come from.
- `operators`, `operator_options`: the operations of a graph and their options.
- `digest`: the identifier of a graph, which does not depend on its weights.
- `limits`: what a backend supports.
- `error`: the errors and their messages.
- `scalar`, `text`: bit patterns of floating-point numbers, numerals and messages.
- `trtx`: the conversion to a TensorRT network.

`app/` is ordinary Rust around the library: serialization, the memory of zeros that large constants
share, and the TensorRT network that a conversion is carried out on.

## How a conversion works

The library does not call TensorRT. A conversion is a conversation: it makes requests (add this
layer, take its output, set these dimensions), and it reads replies (the dimensions and the type of
a tensor, the bytes of a constant, a failure). Where it comes to a request that has no reply yet, it
stops and waits. Whoever runs it carries the request out, appends the reply and calls again.

- `trtx::session` holds the two lists, and what a step does to them.
- `trtx::steps` and `trtx::layers` are the steps that conversions are made of.
- `trtx::elementwise`, `reduce`, `matrix`, `conv`, `pool`, `normalization`, `pad`, `arrange`,
  `select` and `quantize` convert the operations. The contract of each is the exact conversation.
- `trtx::network` converts whole graphs, at once or stage by stage.

What holds of all conversations stands in modules of its own:

- `trtx::growth`: a conversion takes back no request and does nothing once it has stopped.
- `trtx::replay`: a conversion that is started over with more replies makes the same requests again.
- `trtx::scope`: a request names only layers and tensors that answered earlier requests.
- `trtx::frame`: an operation changes the tensors of its own outputs only.
- `trtx::inner`, `trtx::borders`: constants and operations add no input and mark no output, so that
  the inputs and outputs of a network are those of the graph, under their names.
- `trtx::constants`: a conversion takes the bytes of every constant and marks no output before it has
  them all.
- `trtx::meaning`, `trtx::formulas`: what the outputs of an operation are computed from, such as
  `(x - mean) / sqrt(variance + epsilon) * scale + bias` for a normalization.
- `trtx::forms`, `trtx::geometry`, `trtx::pieces`: which part of the input stands where. This says
  where each padding of a convolution, a padding or a pooling lands, and what slices, splits,
  concatenations and their like put together, the blocks of a quantization among them.

Numbers are held as bit patterns. The library compares patterns and lays them out as bytes. The few
products and reciprocals of `f32` values that a conversion needs are rounded in integer arithmetic.

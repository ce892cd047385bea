# shiguredo_vpl

Hardware video encoding and decoding on Intel GPUs through the Video Processing Library (VPL):
H.264, H.265, VP9 and AV1, from NV12, YUY2 or BGRA frames and to NV12 frames.

`src/` is a library that Verus verifies. It decides everything around the calls of VPL and makes none
of them. A procedure that takes several calls is a value: it names the next call, its `step` takes the
reply, and in the end it says what came of it. Every function states what it returns for every
input, and the proof functions named `law_..` state what holds across functions.

| Module | What it holds |
|---|---|
| `error`, `text`, `sys` | errors and their texts, the statuses and constants of VPL |
| `config`, `format`, `param` | encoder settings, frame formats, the parameter block that settings become |
| `loader`, `adapter`, `codec_info` | the dispatcher: opening sessions, listing adapters, querying codecs |
| `vpl` | what statuses mean, and the life of a surface |
| `encode`, `decode` | setting up, feeding and flushing encoders and decoders |
| `pending`, `encode_worker`, `decode_worker` | pairing outputs with what the caller handed in |
| `ledger`, `sequence` | what holds of pending frames and of lists, whatever is in them |
| `handler` | the handlers that get frames |
| `frame_type`, `gop_opt_flag` | constants for callers |

`app/` runs the procedures with threads and with the functions of libvpl, which a binding provides as
an implementation of its trait `Vpl`. Its module `libvpl` is that binding, for builds in which the C
structures are generated from libvpl's headers (`cfg(libvpl)`).

`tests/` runs the library against simulated dispatchers and devices.

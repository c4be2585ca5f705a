# sles_backend

The verified core of an OpenSL ES audio backend for Android.

- `src/` (Verus): the frame counter (`index`), the recording callback's ring
  bookkeeping (`stream`), stream ids and the setup protocol of recorders and
  players (`event_loop`), the stream formats (`format`), the OpenSL ES values the
  setup uses (`sles`), the device stubs (`device`) and the phase of a test tone
  (`wave`).
- `app/`: the program: the OpenSL ES driver that makes the calls the library
  decides on, and an OpenAL tone demo whose samples are computed from the
  library's wave phase.
- `tests/`: tests of the library.

# input0

The logic of the Input0 voice-input application — settings, the custom
vocabulary and transcription history stores, the model catalogue and its
download session, the speech-engine language rules, and the prompts and reply
handling of the text post-processor — written in Verus. Every function of the
library is proved against its contract, except the few small wrappers marked
`#[verifier::external_body]` that call `std`, serde_json, reqwest or dirs; their
contracts are trusted and each says which outside function it relies on.

- `src/` is the verified library. Contracts speak of plain mathematical values
  (`Seq<char>` for text, views of the records); laws that relate several
  functions are public `proof fn`s whose names start with `law_`.
- `app/` is the unverified platform side: file and network I/O, the clipboard,
  audio capture and floating-point sample conversion. It hands the library
  plain values and acts on what it returns; a model download, for example, is
  driven step by step by the library's `ModelDownload` session.
- `tests/` exercises the library on concrete values.

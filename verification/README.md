# solfunmeme_dioxus

The reader side of a legal-reading interface, written in Verus.

- `src/` is the verified library: the reader view state projected from an
  evaluated payment disposition (`semantic_reader`), the renderer-neutral
  proof-cone graph (`visualisation`), intent labels (`views`), snippet
  joining for the clipboard (`extractor`), the motion-handle stand-ins
  (`stubs`) and decimal rendering (`text`). Laws about these projections are
  public proof functions beside them.
- `app/` is the Dioxus interface: components, clipboard and timer I/O, the
  floating-point layout and animation timing types, and the calls into the
  SensibLaw reader model whose results it converts into the library's values.
- `tests/` exercises the library on concrete values.

# soap

SOAP 1.2 envelopes and WS-Addressing headers, verified with Verus.

- `src/dom.rs` — the XML tree (`XmlElement`, `XmlNode`) and its mathematical model.
- `src/codec.rs` — the trusted boundary: reading and writing documents with `xmltree`/`xml-rs`.
- `src/envelope.rs` — `Envelope`: reading it out of a document, the element it is written as,
  and the writer settings.
- `src/addressing.rs` — `Addressing` and its builder; writing WS-Addressing header elements.
- `src/helper/` — `ElementBuilder` and `StringBuffer`.
- `app/` — readers, writers and the `Display`/`Error`/`Write` impls.

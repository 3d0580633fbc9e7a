# heif_server

Converts HEIF (`.heic`) images to JPEG. The decisions of the conversion, the
splitting of HEIF Exif items, the rearrangement of decoded YCbCr 4:2:0 planes
into interleaved scanlines and the driving of the JPEG compressor are written
in Verus and carry contracts that Verus proves.

Layout:

- `src/heif.rs`: the facts the conversion reads from the HEIF decoder.
- `src/exif/`: untimed Exif items (`ExifDataBlock`) and reading them from an
  image (`HeifExif`).
- `src/converter/`: decoding options, the `Encoder` and `ExifMetadata` traits,
  the JPEG encoder, the interleaving of planes (`scanlines.rs`) and the
  compressor's trusted interface (`jpeg_writer.rs`).
- `src/services/`: the API messages, the conversion and information services
  and the Exif parser's trusted interface (`exif_reader.rs`).
- `src/jpeg.rs`: one-shot recoding of a file's primary image.
- `app/`: the program around the library: the HEIF decoder (libheif), file
  input and output, logging and timing. The program runs the information and
  conversion services in the same process on one file given on the command
  line (and writes the JPEG to a second path); it neither serves nor calls them over
  gRPC.
- `tests/`: tests of the library.

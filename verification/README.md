# clap_wrapper

Exports VST3 and AUv2 entry points that forward to the C++ clap-wrapper, which a build
script compiles and links statically with the plugin's CLAP entry.

- `src/` is the verified library: which wrappers are built (from the SDK paths, the target
  system and the build configuration), the exact compilation of each (compiler standard,
  flags, include directories, definitions, sources, link libraries), which entry points each
  system exports and which wrapper symbol each calls, the walk that collects source files,
  and the cache that replays the output of an earlier build.
- `app/` holds the entry points (calls into the compiled C++ library, each declared only
  under the configuration flag that the build sets for it from the library's export table), and the bodies of the build scripts
  that read the environment and the file system, hand what they read to the library, and run
  the compiler through the `cc` crate as the library's plans say.
- `tests/` runs the library on concrete values.

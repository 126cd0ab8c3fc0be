# rapidraw

The verified core of RapidRAW's plugin system and of the TIFF upload used
for remote AI masking.

- `src/text.rs`: the Unicode white-space property, blank fields, and the
  characters a plugin id may hold.
- `src/plugins.rs`: validation of `plugin.json` contents into the manifest
  reported to the frontend, the entry a plugin is loaded from, and the
  confinement of that entry to the plugins directory.
- `src/plugins_laws.rs`: laws of manifests and of the answers to entry requests.
- `src/remote_masking.rs`: the 16-bit RGB image handed to the TIFF encoder,
  its native-order sample layout, and the gateway's default alignment.
- `app/`: the Tauri commands, filesystem and process access, and the serde
  shapes exchanged with the frontend and the gateway.

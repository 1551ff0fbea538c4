# unifi_core

A verified core for a UniFi controller client and its terminal interface.
The library in `src/` is written in Verus: every function carries a
contract, and the laws of the library are proof functions that Verus
checks. The program in `app/` is plain Rust around it: terminal input and
drawing, the configuration file, and a reachability probe.

## Layout

- `src/entity_id.rs`, `src/model.rs`, `src/requests.rs` — identities (UUID
  or legacy ids, normalized MAC addresses), the domain model and the
  request payloads.
- `src/collection.rs`, `src/store.rs` — keyed entity collections with an
  id index, and the store that a refresh replaces wholesale.
- `src/convert.rs` — mappings of the controller APIs' codes and texts to
  the model.
- `src/json.rs`, `src/integration.rs`, `src/network_record.rs`,
  `src/legacy.rs`, `src/event_records.rs`, `src/queries.rs` — the records
  the controller answers with (free-form parts held as JSON values) and
  their reading into the model: devices, clients, networks, WiFi,
  firewall, DNS, vouchers, sites, events, alarms and reference data.
- `src/address.rs`, `src/urls.rs` — which texts are IP addresses, URL
  parts, the Integration API's base URL and the event stream's address.
- `src/config.rs` — the connection configuration and its one-shot form.
- `src/command.rs`, `src/controller.rs`, `src/api.rs` — routing of write
  commands to the Integration or legacy API, merging of partial updates,
  connection, refresh and event stream plans, endpoint URLs, the pager
  that collects paginated listings, and error decisions.
- `src/shell.rs`, `src/screen.rs`, `src/action.rs`, `src/keys.rs` — the
  interface shell: global keys, screen switching, dialogs.
- `src/onboarding.rs`, `src/settings.rs`, `src/profile.rs` — the setup
  wizard and the settings form, and the profiles they build.
- `src/screens.rs`, `src/devices.rs`, `src/networks.rs`,
  `src/network_detail.rs`, `src/events.rs`,
  `src/table.rs`,
  `src/filter.rs`, `src/fmt.rs`, `src/platform.rs`, `src/text.rs` — screen
  states, filters, formatting and text utilities.
- `tests/` — scenario tests run against the compiled library.
- `app/` — the terminal program; its configuration file is
  `~/.config/unifi-cli/config.toml`.

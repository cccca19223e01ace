//! Rendering of the module-style settings document and the policy that
//! decides whether the on-disk copy is replaced.
//!
//! The document's shape is fixed: a type-annotation comment followed by a
//! module export with the two enablement flags.  When the file already
//! exists it is only replaced with explicit confirmation; otherwise it is
//! created unconditionally.

use vstd::prelude::*;

verus! {

/// The text a boolean renders to inside the settings document.
pub open spec fn bool_text(b: bool) -> Seq<char> {
    if b {
        "true"@
    } else {
        "false"@
    }
}

/// Content of the settings document for the given enablement flags: the
/// annotation comment, then `storage.enabled` and `state.enabled`.
pub open spec fn settings_doc(storage_enabled: bool, state_enabled: bool) -> Seq<char> {
    "/** @type {import('rice-node-sdk').RiceConfig} */\nmodule.exports = {\n  storage: {\n    enabled: "@
        + bool_text(storage_enabled) + ",\n  },\n  state: {\n    enabled: "@ + bool_text(
        state_enabled,
    ) + ",\n  },\n};"@
}

/// Renders the settings document for the given enablement flags.
pub fn render_settings(storage_enabled: bool, state_enabled: bool) -> (r: String)
    ensures
        r@ == settings_doc(storage_enabled, state_enabled),
{
    let mut r = String::from_str(
        "/** @type {import('rice-node-sdk').RiceConfig} */\nmodule.exports = {\n  storage: {\n    enabled: ",
    );
    r.append(if storage_enabled { "true" } else { "false" });
    r.append(",\n  },\n  state: {\n    enabled: ");
    r.append(if state_enabled { "true" } else { "false" });
    r.append(",\n  },\n};");
    r
}

/// Whether the settings file is written: always when absent, and only with
/// confirmation when a copy already exists.
pub open spec fn spec_settings_written(file_exists: bool, overwrite_ok: bool) -> bool {
    !file_exists || overwrite_ok
}

/// Decision for the settings write: a missing file is created, an existing
/// one is replaced only when the overwrite was confirmed.
pub fn settings_written(file_exists: bool, overwrite_ok: bool) -> (b: bool)
    ensures
        b == spec_settings_written(file_exists, overwrite_ok),
{
    !file_exists || overwrite_ok
}

/// Name of the settings file in the working directory.
pub fn settings_file_name() -> (r: &'static str)
    ensures
        r@ == "rice.config.js"@,
{
    "rice.config.js"
}

} // verus!

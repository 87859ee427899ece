//! What the transport reads from a Zenoh configuration.
use crate::status::{self, StatusView, UCode, UStatus};
use crate::text;
use vstd::prelude::*;

verus! {

/// The beginning of the warning about compression in the unicast transport.
pub const COMPRESSION_ENABLED_FOR_UNICAST_MESSAGE_PREFIX: &'static str =
    "Compression for the unicast transport is enabled in the Zenoh configuration";

/// The beginning of the warning about compression in the multicast transport.
pub const COMPRESSION_ENABLED_FOR_MULTICAST_MESSAGE_PREFIX: &'static str =
    "Compression for the multicast transport is enabled in the Zenoh configuration";

/// The rest of the warning about compression in the unicast transport.
pub const UNICAST_WARNING: &'static str =
    " (\"/transport/unicast/compression/enabled\"). Note that Zenoh uses the lz4_flex crate for compression in a version that is affected by RUSTSEC-2026-0041, which may result in data leakage.";

/// The rest of the warning about compression in the multicast transport.
pub const MULTICAST_WARNING: &'static str =
    " (\"/transport/multicast/compression/enabled\"). Note that Zenoh uses the lz4_flex crate for compression in a version that is affected by RUSTSEC-2026-0041, which may result in data leakage.";

/// A Zenoh configuration.
#[verifier::external_type_specification]
#[verifier::external_body]
pub struct ExConfig(zenoh::Config);

/// What a configuration holds: the JSON text for each key that can be read.
pub uninterp spec fn config_values(config: zenoh::Config) -> Map<Seq<char>, Seq<char>>;

/// Calls `get_json` of `zenoh::Config`.
///
/// A configuration holds a JSON text for a key, or reading the key fails.
#[verifier::external_body]
fn get_json(config: &zenoh::Config, key: &str) -> (r: Option<String>)
    ensures
        match r {
            Some(value) => config_values(*config).contains_key(key@) && value@ == config_values(
                *config,
            )[key@],
            None => !config_values(*config).contains_key(key@),
        },
{
    config.get_json(key).ok()
}

/// Calls `default` of `zenoh::Config`.
///
/// Nothing is stated of what the default configuration holds.
#[verifier::external_body]
fn default_config() -> zenoh::Config {
    zenoh::Config::default()
}

/// The given configuration, or the default one where none is given.
pub fn config_or_default(config: Option<zenoh::Config>) -> (c: zenoh::Config)
    ensures
        config matches Some(given) ==> c == given,
{
    match config {
        Some(config) => config,
        None => default_config(),
    }
}

/// The truth value that was read for a key, or why there is none.
pub open spec fn bool_value(value: Option<Seq<char>>, key: Seq<char>) -> Result<bool, StatusView> {
    match value {
        None => Err(
            status::failure(UCode::Internal, "Failed to read Zenoh config value for "@ + key),
        ),
        Some(text) => if text == "true"@ {
            Ok(true)
        } else if text == "false"@ {
            Ok(false)
        } else {
            Err(
                status::failure(
                    UCode::Internal,
                    "Failed to parse Zenoh config value for "@ + key + " into a boolean"@,
                ),
            )
        },
    }
}

/// What a configuration holds for a key.
pub open spec fn config_value(config: zenoh::Config, key: Seq<char>) -> Option<Seq<char>> {
    if config_values(config).contains_key(key) {
        Some(config_values(config)[key])
    } else {
        None
    }
}

/// Reads a truth value from the text for a key.
pub fn parse_bool_value(value: Option<String>, key: &str) -> (r: Result<bool, UStatus>)
    ensures
        match bool_value(crate::attributes::owned_text(value), key@) {
            Ok(b) => r == Ok::<bool, UStatus>(b),
            Err(failure) => r matches Err(e) && e@ == failure,
        },
{
    let text = match value {
        Some(text) => text,
        None => {
            return Err(
                UStatus::fail_with_code(
                    UCode::Internal,
                    text::join("Failed to read Zenoh config value for ", key),
                ),
            );
        },
    };
    if text == "true".to_string() {
        return Ok(true);
    }
    if text == "false".to_string() {
        return Ok(false);
    }
    let mut message = text::join("Failed to parse Zenoh config value for ", key);
    message.append(" into a boolean");
    Err(UStatus::fail_with_code(UCode::Internal, message))
}

/// Reads the truth value of a key.
pub fn read_bool_config(config: &zenoh::Config, key: &str) -> (r: Result<bool, UStatus>)
    ensures
        match bool_value(config_value(*config, key@), key@) {
            Ok(b) => r == Ok::<bool, UStatus>(b),
            Err(failure) => r matches Err(e) && e@ == failure,
        },
{
    parse_bool_value(get_json(config, key), key)
}

/// The warnings for a configuration whose compression flags have the given values.
pub open spec fn warnings_for(unicast: bool, multicast: bool) -> Seq<Seq<char>> {
    let first = if unicast {
        seq![COMPRESSION_ENABLED_FOR_UNICAST_MESSAGE_PREFIX@ + UNICAST_WARNING@]
    } else {
        Seq::empty()
    };
    if multicast {
        first.push(COMPRESSION_ENABLED_FOR_MULTICAST_MESSAGE_PREFIX@ + MULTICAST_WARNING@)
    } else {
        first
    }
}

/// The warnings that a configuration calls for, or why it cannot be used.
pub open spec fn config_findings(config: zenoh::Config) -> Result<Seq<Seq<char>>, StatusView> {
    let unicast_key = "/transport/unicast/compression/enabled"@;
    let multicast_key = "/transport/multicast/compression/enabled"@;
    match bool_value(config_value(config, unicast_key), unicast_key) {
        Err(failure) => Err(failure),
        Ok(unicast) => match bool_value(config_value(config, multicast_key), multicast_key) {
            Err(failure) => Err(failure),
            Ok(multicast) => Ok(warnings_for(unicast, multicast)),
        },
    }
}

/// The texts that a vector holds.
pub open spec fn texts(v: Seq<String>) -> Seq<Seq<char>> {
    v.map_values(|s: String| s@)
}

/// The warnings for a configuration whose compression flags have the given values.
pub fn compression_warnings(unicast: bool, multicast: bool) -> (warnings: Vec<String>)
    ensures
        texts(warnings@) == warnings_for(unicast, multicast),
{
    let mut warnings: Vec<String> = Vec::new();
    if unicast {
        warnings.push(text::join(COMPRESSION_ENABLED_FOR_UNICAST_MESSAGE_PREFIX, UNICAST_WARNING));
    }
    if multicast {
        warnings.push(
            text::join(COMPRESSION_ENABLED_FOR_MULTICAST_MESSAGE_PREFIX, MULTICAST_WARNING),
        );
    }
    assert(texts(warnings@) =~= warnings_for(unicast, multicast));
    warnings
}

/// Looks for settings of a configuration that call for a warning.
pub fn inspect_config(config: &zenoh::Config) -> (r: Result<Vec<String>, UStatus>)
    ensures
        match config_findings(*config) {
            Ok(warnings) => r matches Ok(w) && texts(w@) == warnings,
            Err(failure) => r matches Err(e) && e@ == failure,
        },
{
    let unicast = match read_bool_config(config, "/transport/unicast/compression/enabled") {
        Ok(enabled) => enabled,
        Err(status) => {
            return Err(status);
        },
    };
    let multicast = match read_bool_config(config, "/transport/multicast/compression/enabled") {
        Ok(enabled) => enabled,
        Err(status) => {
            return Err(status);
        },
    };
    Ok(compression_warnings(unicast, multicast))
}

/// The texts `true` and `false` are truth values, and no other text is one. A value that is
/// missing or is no truth value is an internal failure that names the key.
pub proof fn law_truth_values(value: Option<Seq<char>>, key: Seq<char>)
    ensures
        bool_value(value, key) == Ok::<bool, StatusView>(true) <==> value == Some("true"@),
        bool_value(value, key) == Ok::<bool, StatusView>(false) <==> value == Some("false"@),
        value is None ==> (bool_value(value, key) matches Err(s) && s.code == UCode::Internal
            && s.message == "Failed to read Zenoh config value for "@ + key),
        value matches Some(text) ==> (text != "true"@ && text != "false"@ ==> (bool_value(
            value,
            key,
        ) matches Err(s) && s.code == UCode::Internal && s.message
            == "Failed to parse Zenoh config value for "@ + key + " into a boolean"@)),
{
    reveal_strlit("true");
    reveal_strlit("false");
    assert("true"@.len() != "false"@.len());
}

/// What a configuration holds for a key is what can be read from it under that key.
pub proof fn law_config_value_is_read_under_its_key(config: zenoh::Config, key: Seq<char>)
    ensures
        config_value(config, key) is Some <==> config_values(config).contains_key(key),
        config_values(config).contains_key(key) ==> config_value(config, key) == Some(
            config_values(config)[key],
        ),
{
}

/// There is one warning for each transport that compresses, the one about the unicast
/// transport first, and none where nothing is compressed.
pub proof fn law_warnings_follow_the_flags(unicast: bool, multicast: bool)
    ensures
        ({
            let warnings = warnings_for(unicast, multicast);
            let about_unicast = COMPRESSION_ENABLED_FOR_UNICAST_MESSAGE_PREFIX@ + UNICAST_WARNING@;
            let about_multicast = COMPRESSION_ENABLED_FOR_MULTICAST_MESSAGE_PREFIX@
                + MULTICAST_WARNING@;
            &&& !unicast && !multicast ==> warnings.len() == 0
            &&& unicast && !multicast ==> warnings == seq![about_unicast]
            &&& !unicast && multicast ==> warnings == seq![about_multicast]
            &&& unicast && multicast ==> warnings == seq![about_unicast, about_multicast]
        }),
{
    let about_unicast = COMPRESSION_ENABLED_FOR_UNICAST_MESSAGE_PREFIX@ + UNICAST_WARNING@;
    let about_multicast = COMPRESSION_ENABLED_FOR_MULTICAST_MESSAGE_PREFIX@ + MULTICAST_WARNING@;
    assert(unicast && multicast ==> warnings_for(unicast, multicast) =~= seq![
        about_unicast,
        about_multicast,
    ]);
    assert(!unicast && multicast ==> warnings_for(unicast, multicast) =~= seq![about_multicast]);
}

/// A configuration can be used exactly if it holds truth values for the compression of both
/// transports, and its warnings are about those that compress.
pub proof fn law_findings_are_about_compression(config: zenoh::Config)
    ensures
        ({
            let unicast = config_value(config, "/transport/unicast/compression/enabled"@);
            let multicast = config_value(config, "/transport/multicast/compression/enabled"@);
            let findings = config_findings(config);
            &&& findings is Ok <==> (unicast == Some("true"@) || unicast == Some("false"@)) && (
            multicast == Some("true"@) || multicast == Some("false"@))
            &&& findings matches Ok(warnings) ==> warnings == warnings_for(
                unicast == Some("true"@),
                multicast == Some("true"@),
            )
            &&& findings matches Err(s) ==> s.code == UCode::Internal
        }),
{
    law_truth_values(
        config_value(config, "/transport/unicast/compression/enabled"@),
        "/transport/unicast/compression/enabled"@,
    );
    law_truth_values(
        config_value(config, "/transport/multicast/compression/enabled"@),
        "/transport/multicast/compression/enabled"@,
    );
}

/// The model of a list of texts holds each of them at its place.
pub proof fn law_texts_are_all_texts(v: Seq<String>)
    ensures
        texts(v).len() == v.len(),
        forall|i: int| 0 <= i < v.len() ==> #[trigger] texts(v)[i] == v[i]@,
{
}

} // verus!

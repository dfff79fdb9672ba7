//! The configuration of the privileged service: which interface it creates, which
//! WireGuard configuration it applies, and where its request socket lies. Each has
//! a default; the section `Refraction` of the configuration file overrides them.

use vstd::prelude::*;
use ini::{Ini, Properties};

verus! {

/// The contents of a parsed configuration file.
#[verifier::external_type_specification]
#[verifier::external_body]
pub struct ExIni(Ini);

/// The properties (key, value pairs) of one section of a configuration file.
#[verifier::external_type_specification]
#[verifier::external_body]
pub struct ExProperties(Properties);

/// The (key, value) pairs of a section, in the order they were added (the order
/// in which `Properties::iter` yields them).
pub uninterp spec fn properties_entries(p: Properties) -> Seq<(Seq<char>, Seq<char>)>;

/// The sections of a configuration file, each with its name (`None` for the
/// general section) and its (key, value) pairs, in the order they were added.
pub uninterp spec fn ini_sections(conf: Ini) -> Seq<(Option<Seq<char>>, Seq<(Seq<char>, Seq<char>)>)>;

/// The value of the first pair with key `key`.
pub open spec fn first_value(entries: Seq<(Seq<char>, Seq<char>)>, key: Seq<char>) -> Option<Seq<char>>
    decreases entries.len(),
{
    if entries.len() == 0 {
        None
    } else if entries[0].0 == key {
        Some(entries[0].1)
    } else {
        first_value(entries.drop_first(), key)
    }
}

/// The pairs of the first section named `name`.
pub open spec fn first_section(
    sections: Seq<(Option<Seq<char>>, Seq<(Seq<char>, Seq<char>)>)>,
    name: Option<Seq<char>>,
) -> Option<Seq<(Seq<char>, Seq<char>)>>
    decreases sections.len(),
{
    if sections.len() == 0 {
        None
    } else if sections[0].0 == name {
        Some(sections[0].1)
    } else {
        first_section(sections.drop_first(), name)
    }
}

/// `Properties::get`: the first value, in the order the pairs were added, of the
/// key `key` (keys compared exactly, the crate's case-insensitive feature being off).
#[verifier::external_body]
fn properties_get<'a>(section: &'a Properties, key: &str) -> (v: Option<&'a str>)
    ensures
        v is None <==> first_value(properties_entries(*section), key@) is None,
        v matches Some(s) ==> first_value(properties_entries(*section), key@) == Some(s@),
{
    section.get(key)
}

/// `Ini::section` with a name: the first section so named.
#[verifier::external_body]
fn ini_section<'a>(conf: &'a Ini, name: &str) -> (p: Option<&'a Properties>)
    ensures
        p is None <==> first_section(ini_sections(*conf), Some(name@)) is None,
        p matches Some(props) ==> first_section(ini_sections(*conf), Some(name@))
            == Some(properties_entries(*props)),
{
    conf.section(Some(name))
}

/// What a setting becomes when the section may give it a value: that value, or
/// what it was.
pub open spec fn spec_overridden(entries: Seq<(Seq<char>, Seq<char>)>, key: Seq<char>, current: Seq<char>) -> Seq<char> {
    match first_value(entries, key) {
        Some(v) => v,
        None => current,
    }
}

/// Sets `target` to the value of `key` in `section`, where the section has one;
/// otherwise leaves it as it is.
pub fn assign_some(section: &Properties, key: &str, target: &mut String)
    ensures
        final(target)@ == spec_overridden(properties_entries(*section), key@, old(target)@),
        first_value(properties_entries(*section), key@) matches Some(v) ==> final(target)@ == v,
        first_value(properties_entries(*section), key@) is None ==> final(target)@ == old(target)@,
{
    if let Some(k) = properties_get(section, key) {
        *target = String::from_str(k);
    }
}

/// The settings of the privileged service.
pub struct PrivConfig {
    /// The name of the WireGuard interface it creates.
    pub wg_name: String,
    /// The WireGuard configuration file it applies to the interface.
    pub wg_conf: String,
    /// Where it listens for requests.
    pub sock_path: String,
}

impl View for PrivConfig {
    type V = (Seq<char>, Seq<char>, Seq<char>);

    open spec fn view(&self) -> Self::V {
        (self.wg_name@, self.wg_conf@, self.sock_path@)
    }
}

/// The settings that hold when no configuration file overrides them.
pub open spec fn spec_default_config() -> (Seq<char>, Seq<char>, Seq<char>) {
    ("wg-refraction"@, "/etc/refraction-rdp/wg-refraction.conf"@, "/tmp/refraction-rdp.sock"@)
}

/// The settings after a configuration file whose sections are `sections` was read
/// over `current`: the first section named `Refraction`, if any, overrides
/// `wg_name`, `wireguard_conf` and `socket_path` with their first values in it.
pub open spec fn spec_apply_sections(
    current: (Seq<char>, Seq<char>, Seq<char>),
    sections: Seq<(Option<Seq<char>>, Seq<(Seq<char>, Seq<char>)>)>,
) -> (Seq<char>, Seq<char>, Seq<char>) {
    match first_section(sections, Some("Refraction"@)) {
        None => current,
        Some(entries) => (
            spec_overridden(entries, "wg_name"@, current.0),
            spec_overridden(entries, "wireguard_conf"@, current.1),
            spec_overridden(entries, "socket_path"@, current.2),
        ),
    }
}

/// Whether `after` is what reading a file with sections `sections` over `before`
/// must give, each setting on its own: with no section `Refraction`, nothing
/// changes; otherwise each of `wg_name`, `wireguard_conf` and `socket_path` takes
/// its first value in the first such section when the key is there, whatever other
/// keys it holds, and keeps its value when it is not.
pub open spec fn spec_settings_from(
    before: (Seq<char>, Seq<char>, Seq<char>),
    sections: Seq<(Option<Seq<char>>, Seq<(Seq<char>, Seq<char>)>)>,
    after: (Seq<char>, Seq<char>, Seq<char>),
) -> bool {
    match first_section(sections, Some("Refraction"@)) {
        None => after == before,
        Some(entries) => {
            &&& (first_value(entries, "wg_name"@) matches Some(v) ==> after.0 == v)
            &&& (first_value(entries, "wg_name"@) is None ==> after.0 == before.0)
            &&& (first_value(entries, "wireguard_conf"@) matches Some(v) ==> after.1 == v)
            &&& (first_value(entries, "wireguard_conf"@) is None ==> after.1 == before.1)
            &&& (first_value(entries, "socket_path"@) matches Some(v) ==> after.2 == v)
            &&& (first_value(entries, "socket_path"@) is None ==> after.2 == before.2)
        },
    }
}

/// Reading a configuration file overrides each of the three settings on its own,
/// by the first value of its key in the first `Refraction` section, and leaves the
/// others as they were.
pub proof fn lemma_settings_overridden_independently(
    current: (Seq<char>, Seq<char>, Seq<char>),
    sections: Seq<(Option<Seq<char>>, Seq<(Seq<char>, Seq<char>)>)>,
)
    ensures
        spec_settings_from(current, sections, spec_apply_sections(current, sections)),
{
}

/// Starting from the defaults, a file that gives only some of the keys changes
/// only those settings; the others keep their defaults.
pub proof fn lemma_defaults_kept_for_missing_keys(
    sections: Seq<(Option<Seq<char>>, Seq<(Seq<char>, Seq<char>)>)>,
)
    ensures
        ({
            let after = spec_apply_sections(spec_default_config(), sections);
            &&& (first_section(sections, Some("Refraction"@)) matches Some(e)
                    && first_value(e, "socket_path"@) is None ==> after.2 == "/tmp/refraction-rdp.sock"@)
            &&& (first_section(sections, Some("Refraction"@)) matches Some(e)
                    && first_value(e, "wg_name"@) is None ==> after.0 == "wg-refraction"@)
            &&& (first_section(sections, Some("Refraction"@)) matches Some(e)
                    && first_value(e, "wireguard_conf"@) is None
                    ==> after.1 == "/etc/refraction-rdp/wg-refraction.conf"@)
            &&& (first_section(sections, Some("Refraction"@)) is None ==> after == spec_default_config())
        }),
{
    lemma_settings_overridden_independently(spec_default_config(), sections);
}

impl PrivConfig {
    /// The default settings.
    pub fn defaults() -> (c: PrivConfig)
        ensures
            c@ == spec_default_config(),
    {
        PrivConfig {
            wg_name: String::from_str("wg-refraction"),
            wg_conf: String::from_str("/etc/refraction-rdp/wg-refraction.conf"),
            sock_path: String::from_str("/tmp/refraction-rdp.sock"),
        }
    }

    /// Reads the settings that the configuration file `conf` gives over the current ones.
    pub fn apply_ini(&mut self, conf: &Ini)
        ensures
            final(self)@ == spec_apply_sections(old(self)@, ini_sections(*conf)),
            spec_settings_from(old(self)@, ini_sections(*conf), final(self)@),
    {
        if let Some(section) = ini_section(conf, "Refraction") {
            assign_some(section, "socket_path", &mut self.sock_path);
            assign_some(section, "wireguard_conf", &mut self.wg_conf);
            assign_some(section, "wg_name", &mut self.wg_name);
        }
    }
}

} // verus!

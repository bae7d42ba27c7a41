//! The part of the application's configuration that the library reads,
//! its defaults, and the placeholders of strategy texts.

use crate::command::no_args;
use crate::command::push_arg;
use crate::command::texts;
use crate::text::chars_of;
use crate::text::find;
use crate::text::find_first;
use crate::text::string_of;
use crate::text::CharClass;
use regex::Regex;
use vstd::prelude::*;

verus! {

/// The ports that the worker filters.
#[derive(Clone, Debug)]
pub struct GlobalPorts {
    /// The TCP ports, as the worker's flag takes them.
    pub tcp: String,
    /// The UDP ports, as the worker's flag takes them.
    pub udp: String,
}

impl Default for GlobalPorts {
    fn default() -> (ports: Self)
        ensures
            ports.tcp@ == "80,443"@,
            ports.udp@ == "1-65535"@,
    {
        GlobalPorts { tcp: String::from_str("80,443"), udp: String::from_str("1-65535") }
    }
}

/// A strategy: a piece of the worker's command line that the user can
/// switch on.
#[derive(Clone, Debug)]
pub struct Strategy {
    pub id: String,
    pub name: String,
    pub content: String,
    pub active: bool,
}

/// A group of strategies.
#[derive(Clone, Debug)]
pub struct Category {
    pub id: String,
    pub name: String,
    pub strategies: Vec<Strategy>,
}

/// A name that strategy texts may hold between double braces, and the
/// path that is put in its place.
#[derive(Clone, Debug)]
pub struct Placeholder {
    pub name: String,
    pub path: String,
}

/// A filter fragment that the user can switch on.
#[derive(Clone, Debug)]
pub struct Filter {
    pub id: String,
    pub name: String,
    pub filename: String,
    pub active: bool,
}

/// The configuration.
#[derive(Clone, Debug)]
pub struct AppConfig {
    pub global_ports: GlobalPorts,
    pub categories: Vec<Category>,
    pub placeholders: Vec<Placeholder>,
    pub filters: Vec<Filter>,
    pub binaries_path: String,
    pub minimize_to_tray: bool,
    pub list_mode: String,
}

/// Whether the window goes to the tray when it is closed, where the
/// configuration does not say.
pub fn default_minimize_to_tray() -> (r: bool)
    ensures
        r,
{
    true
}

/// The list mode, where the configuration does not say.
pub fn default_list_mode() -> (mode: String)
    ensures
        mode@ == "ipset"@,
{
    String::from_str("ipset")
}

/// A filter with its texts as sequences of characters.
pub struct FilterView {
    pub id: Seq<char>,
    pub name: Seq<char>,
    pub filename: Seq<char>,
    pub active: bool,
}

impl View for Filter {
    type V = FilterView;

    open spec fn view(&self) -> FilterView {
        FilterView { id: self.id@, name: self.name@, filename: self.filename@, active: self.active }
    }
}

/// The views of a list of filters.
pub open spec fn filter_views(filters: Seq<Filter>) -> Seq<FilterView> {
    filters.map_values(|filter: Filter| filter@)
}

/// The filters of a configuration that names none.
pub open spec fn standard_filters() -> Seq<FilterView> {
    seq![
        FilterView {
            id: "filter-discord"@,
            name: "Discord Media"@,
            filename: "windivert_part.discord_media.txt"@,
            active: true,
        },
        FilterView {
            id: "filter-stun"@,
            name: "STUN"@,
            filename: "windivert_part.stun.txt"@,
            active: true,
        },
        FilterView {
            id: "filter-wireguard"@,
            name: "WireGuard"@,
            filename: "windivert_part.wireguard.txt"@,
            active: false,
        },
        FilterView {
            id: "filter-quic"@,
            name: "QUIC Initial IETF"@,
            filename: "windivert_part.quic_initial_ietf.txt"@,
            active: false,
        },
        FilterView {
            id: "filter-dht"@,
            name: "DHT"@,
            filename: "windivert_part.dht.txt"@,
            active: false,
        },
    ]
}

fn filter(id: &str, name: &str, filename: &str, active: bool) -> (f: Filter)
    ensures
        f@ == (FilterView { id: id@, name: name@, filename: filename@, active }),
{
    Filter {
        id: String::from_str(id),
        name: String::from_str(name),
        filename: String::from_str(filename),
        active,
    }
}

/// The filters of a configuration that names none.
pub fn default_filters() -> (filters: Vec<Filter>)
    ensures
        filter_views(filters@) == standard_filters(),
{
    let mut filters: Vec<Filter> = Vec::new();
    filters.push(filter("filter-discord", "Discord Media", "windivert_part.discord_media.txt", true));
    filters.push(filter("filter-stun", "STUN", "windivert_part.stun.txt", true));
    filters.push(filter("filter-wireguard", "WireGuard", "windivert_part.wireguard.txt", false));
    filters.push(
        filter("filter-quic", "QUIC Initial IETF", "windivert_part.quic_initial_ietf.txt", false),
    );
    filters.push(filter("filter-dht", "DHT", "windivert_part.dht.txt", false));
    assert(filter_views(filters@) =~= standard_filters());
    filters
}

impl AppConfig {
    /// The configuration to begin with: `base` as it was read, with
    /// `binaries_path` as the place of the binaries, and with the standard
    /// filters where `base` names none.
    pub fn with_defaults(base: AppConfig, binaries_path: String) -> (config: AppConfig)
        ensures
            config.binaries_path == binaries_path,
            base.filters@.len() > 0 ==> config.filters == base.filters,
            base.filters@.len() == 0 ==> filter_views(config.filters@) == standard_filters(),
            config.global_ports == base.global_ports,
            config.categories == base.categories,
            config.placeholders == base.placeholders,
            config.minimize_to_tray == base.minimize_to_tray,
            config.list_mode == base.list_mode,
    {
        let mut config = base;
        config.binaries_path = binaries_path;
        if config.filters.len() == 0 {
            config.filters = default_filters();
        }
        config
    }

    /// The configuration where nothing was read: the default ports, no
    /// strategies and no placeholders, the standard filters, and
    /// `binaries_path` as the place of the binaries.
    pub fn initial(binaries_path: String) -> (config: AppConfig)
        ensures
            config.binaries_path == binaries_path,
            config.global_ports.tcp@ == "80,443"@,
            config.global_ports.udp@ == "1-65535"@,
            config.categories@.len() == 0,
            config.placeholders@.len() == 0,
            filter_views(config.filters@) == standard_filters(),
            config.minimize_to_tray,
            config.list_mode@ == "ipset"@,
    {
        AppConfig {
            global_ports: GlobalPorts::default(),
            categories: Vec::new(),
            placeholders: Vec::new(),
            filters: default_filters(),
            binaries_path,
            minimize_to_tray: default_minimize_to_tray(),
            list_mode: default_list_mode(),
        }
    }
}

/// The parts of `s` between slashes and backslashes, without the empty
/// ones.
pub open spec fn segments(s: Seq<char>) -> Seq<Seq<char>>
    decreases s.len(),
{
    if s.len() == 0 {
        Seq::empty()
    } else {
        let end = find_first(s, CharClass::PathSeparator);
        let tail = if 0 <= end < s.len() {
            segments(s.skip(end + 1))
        } else {
            Seq::empty()
        };
        if end > 0 {
            seq![s.take(end)] + tail
        } else {
            tail
        }
    }
}

/// The components below the home directory that `path` names, where it
/// begins with a tilde; `None` for any other path, which stands for
/// itself.
pub open spec fn home_relative(path: Seq<char>) -> Option<Seq<Seq<char>>> {
    if path.len() > 0 && path[0] == '~' {
        Some(segments(path.skip(1)))
    } else {
        None
    }
}

/// Reads a path that may begin with a tilde.
pub fn home_segments(path: &str) -> (parts: Option<Vec<String>>)
    ensures
        match parts {
            Some(found) => home_relative(path@) == Some(texts(found@)),
            None => home_relative(path@) is None,
        },
{
    let whole = chars_of(path);
    if whole.len() == 0 || whole[0] != '~' {
        return None;
    }
    let size: usize = whole.len();
    let mut rest: &[char] = vstd::slice::slice_subrange(whole.as_slice(), 1, size);
    assert(rest@ == path@.skip(1));
    let mut parts: Vec<String> = no_args();
    while rest.len() > 0
        invariant
            segments(path@.skip(1)) == texts(parts@) + segments(rest@),
        decreases rest@.len(),
    {
        let size: usize = rest.len();
        let end: usize = find(rest, CharClass::PathSeparator);
        let ghost before = texts(parts@);
        let ghost old_rest = rest@;
        if end > 0 {
            let head = vstd::slice::slice_subrange(rest, 0, end);
            assert(head@ == rest@.take(end as int));
            push_arg(&mut parts, string_of(head));
        }
        if end < size {
            rest = vstd::slice::slice_subrange(rest, end + 1, size);
            assert(rest@ == old_rest.skip(end + 1));
        } else {
            rest = vstd::slice::slice_subrange(rest, size, size);
            assert(rest@ == Seq::<char>::empty());
        }
        assert(before + segments(old_rest) =~= texts(parts@) + segments(rest@));
    }
    assert(texts(parts@) + segments(rest@) =~= texts(parts@));
    Some(parts)
}

/// The regular expression that finds the placeholder `name` in a text:
/// the name between double braces, each brace escaped. The name itself is
/// not escaped.
pub open spec fn placeholder_pattern(name: Seq<char>) -> Seq<char> {
    "\\{\\{"@ + name + "\\}\\}"@
}

/// The compiled regular expression of the `regex` crate, taken as it is.
#[verifier::external_type_specification]
#[verifier::external_body]
pub struct ExRegex(Regex);

/// The error type of the `regex` crate, taken as it is.
#[verifier::external_type_specification]
#[verifier::external_body]
pub struct ExRegexError(regex::Error);

/// The regular expression that `pattern` writes down, or `None` where it
/// writes none.
pub uninterp spec fn compiled(pattern: Seq<char>) -> Option<Regex>;

/// `text` with every match of `re` replaced by `replacement`, in which a
/// dollar sign refers to a group of the match.
pub uninterp spec fn replaced(re: Regex, text: Seq<char>, replacement: Seq<char>) -> Seq<char>;

/// Compiles a regular expression.
///
/// Trusted: `regex::Regex::new`. The contract only gives its result a
/// name.
#[verifier::external_body]
fn compile(pattern: &str) -> (r: Result<Regex, regex::Error>)
    ensures
        match r {
            Ok(re) => compiled(pattern@) == Some(re),
            Err(_) => compiled(pattern@) is None,
        },
{
    Regex::new(pattern)
}

/// Replaces every match of a regular expression.
///
/// Trusted: `regex::Regex::replace_all` with a string as the replacement.
/// The contract only gives its result a name.
#[verifier::external_body]
fn replace_all(re: &Regex, text: &str, replacement: &str) -> (out: String)
    ensures
        out@ == replaced(*re, text@, replacement@),
{
    re.replace_all(text, replacement).into_owned()
}

/// The pattern of every placeholder is a regular expression.
pub open spec fn patterns_compile(placeholders: Seq<Placeholder>) -> bool {
    forall|i: int|
        0 <= i < placeholders.len() ==> compiled(
            placeholder_pattern((#[trigger] placeholders[i]).name@),
        ) is Some
}

/// `text` with the placeholders put in, one after the other in the order
/// of the list: every place where a name stands between double braces
/// gets that placeholder's path.
pub open spec fn substituted(text: Seq<char>, placeholders: Seq<Placeholder>) -> Seq<char>
    decreases placeholders.len(),
{
    if placeholders.len() == 0 {
        text
    } else {
        let last = placeholders.last();
        replaced(
            compiled(placeholder_pattern(last.name@))->0,
            substituted(text, placeholders.drop_last()),
            last.path@,
        )
    }
}

fn pattern_for(name: &str) -> (pattern: String)
    ensures
        pattern@ == placeholder_pattern(name@),
{
    let mut pattern = String::from_str("\\{\\{");
    pattern.append(name);
    pattern.append("\\}\\}");
    pattern
}

/// Puts the placeholders into `content`. The paths are taken as they are
/// given: a path below the home directory has to be written out before.
pub fn resolve_placeholders(content: String, placeholders: &Vec<Placeholder>) -> (text: String)
    requires
        patterns_compile(placeholders@),
    ensures
        text@ == substituted(content@, placeholders@),
{
    let mut text = content;
    let mut i: usize = 0;
    assert(placeholders@.take(0) == Seq::<Placeholder>::empty());
    while i < placeholders.len()
        invariant
            i <= placeholders@.len(),
            patterns_compile(placeholders@),
            text@ == substituted(content@, placeholders@.take(i as int)),
        decreases placeholders@.len() - i,
    {
        let placeholder = &placeholders[i];
        assert(placeholders@.take(i + 1).drop_last() == placeholders@.take(i as int));
        assert(placeholders@.take(i + 1).last() == placeholders@[i as int]);
        let pattern = pattern_for(placeholder.name.as_str());
        match compile(pattern.as_str()) {
            Ok(re) => {
                text = replace_all(&re, text.as_str(), placeholder.path.as_str());
            },
            Err(_) => {
                // Ruled out: the pattern of every placeholder compiles.
                assert(false);
            },
        }
        i += 1;
    }
    assert(placeholders@.take(i as int) == placeholders@);
    text
}

/// Puts the placeholders into `content`, if the pattern of every
/// placeholder is a regular expression; else nothing is put in and `None`
/// comes back.
pub fn try_resolve_placeholders(content: String, placeholders: &Vec<Placeholder>) -> (text: Option<
    String,
>)
    ensures
        match text {
            Some(done) => patterns_compile(placeholders@) && done@ == substituted(
                content@,
                placeholders@,
            ),
            None => !patterns_compile(placeholders@),
        },
{
    let mut i: usize = 0;
    while i < placeholders.len()
        invariant
            i <= placeholders@.len(),
            forall|k: int|
                0 <= k < i ==> compiled(
                    placeholder_pattern((#[trigger] placeholders@[k]).name@),
                ) is Some,
        decreases placeholders@.len() - i,
    {
        let pattern = pattern_for(placeholders[i].name.as_str());
        if compile(pattern.as_str()).is_err() {
            return None;
        }
        i += 1;
    }
    Some(resolve_placeholders(content, placeholders))
}

} // verus!

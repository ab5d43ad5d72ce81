//! The manifest of a GitHub App, and its serialized JSON form.
//!
//! The manifest carries the app's configuration: its homepage, and optional
//! name, webhook configuration, redirect and callback URLs, permissions,
//! events and visibility. It is serialized to one JSON object whose fields
//! stand in declaration order and whose absent optional fields are omitted.

use vstd::prelude::*;

use crate::text::{
    chars_string, push_chars, push_str_chars, spec_hex_digit, hex_digit_char, str_chars,
};

verus! {

/// How one character is written inside a JSON string: the quote and the
/// backslash get a backslash escape, the named control characters their short
/// escape, every other control character a `\u00..` escape with lowercase
/// hexadecimal digits, and everything else stays as it is.
pub open spec fn spec_json_escape_char(c: char) -> Seq<char> {
    if c == '"' {
        seq!['\\', '"']
    } else if c == '\\' {
        seq!['\\', '\\']
    } else if c == '\u{8}' {
        seq!['\\', 'b']
    } else if c == '\t' {
        seq!['\\', 't']
    } else if c == '\n' {
        seq!['\\', 'n']
    } else if c == '\u{c}' {
        seq!['\\', 'f']
    } else if c == '\r' {
        seq!['\\', 'r']
    } else if (c as u32) < 0x20 {
        seq!['\\', 'u', '0', '0', spec_hex_digit((c as u32 / 16) as nat), spec_hex_digit(
            (c as u32 % 16) as nat,
        )]
    } else {
        seq![c]
    }
}

/// The JSON escape of a whole character sequence.
pub open spec fn spec_json_escape(s: Seq<char>) -> Seq<char>
    decreases s.len(),
{
    if s.len() == 0 {
        Seq::empty()
    } else {
        spec_json_escape_char(s[0]) + spec_json_escape(s.drop_first())
    }
}

/// Escaping one more character appends that character's escape.
pub proof fn lemma_json_escape_push(s: Seq<char>, c: char)
    ensures
        spec_json_escape(s.push(c)) == spec_json_escape(s) + spec_json_escape_char(c),
    decreases s.len(),
{
    if s.len() == 0 {
        assert(s.push(c)[0] == c);
        assert(s.push(c).drop_first() =~= Seq::<char>::empty());
        assert(spec_json_escape(s.push(c)) == spec_json_escape_char(c) + spec_json_escape(
            Seq::<char>::empty(),
        ));
        assert(spec_json_escape_char(c) + Seq::<char>::empty() =~= spec_json_escape_char(c));
        assert(spec_json_escape(s) + spec_json_escape_char(c) =~= spec_json_escape_char(c));
    } else {
        assert(s.push(c).drop_first() =~= s.drop_first().push(c));
        lemma_json_escape_push(s.drop_first(), c);
        assert(s.push(c)[0] == s[0]);
        assert(spec_json_escape_char(s[0]) + (spec_json_escape(s.drop_first())
            + spec_json_escape_char(c)) =~= (spec_json_escape_char(s[0]) + spec_json_escape(
            s.drop_first(),
        )) + spec_json_escape_char(c));
    }
}

/// A JSON string: the escaped characters between quotes.
pub open spec fn spec_json_string(s: Seq<char>) -> Seq<char> {
    seq!['"'] + spec_json_escape(s) + seq!['"']
}

/// The pieces joined with commas between them.
pub open spec fn spec_join_comma(ls: Seq<Seq<char>>) -> Seq<char>
    decreases ls.len(),
{
    if ls.len() == 0 {
        Seq::empty()
    } else if ls.len() == 1 {
        ls[0]
    } else {
        ls[0] + seq![','] + spec_join_comma(ls.drop_first())
    }
}

/// Joining one more piece appends a comma (unless nothing came before it) and
/// the piece.
pub proof fn lemma_join_comma_push(ls: Seq<Seq<char>>, l: Seq<char>)
    ensures
        spec_join_comma(ls.push(l)) == if ls.len() == 0 {
            l
        } else {
            spec_join_comma(ls) + seq![','] + l
        },
    decreases ls.len(),
{
    if ls.len() == 0 {
        assert(ls.push(l)[0] == l);
    } else {
        assert(ls.push(l).drop_first() =~= ls.drop_first().push(l));
        lemma_join_comma_push(ls.drop_first(), l);
        assert(ls.push(l)[0] == ls[0]);
        if ls.len() == 1 {
            assert(spec_join_comma(ls.push(l)) == ls[0] + seq![','] + spec_join_comma(
                ls.drop_first().push(l),
            ));
            assert(spec_join_comma(ls.drop_first().push(l)) == l);
            assert(spec_join_comma(ls) + seq![','] + l =~= ls[0] + seq![','] + l);
        } else {
            assert(ls[0] + seq![','] + (spec_join_comma(ls.drop_first()) + seq![','] + l) =~= (
            ls[0] + seq![','] + spec_join_comma(ls.drop_first())) + seq![','] + l);
        }
    }
}

/// A JSON array of strings.
pub open spec fn spec_string_array_json(xs: Seq<Seq<char>>) -> Seq<char> {
    seq!['['] + spec_join_comma(xs.map_values(|s: Seq<char>| spec_json_string(s))) + seq![']']
}

/// A JSON object of string keys and string values, in the given order.
pub open spec fn spec_pairs_json(ps: Seq<(Seq<char>, Seq<char>)>) -> Seq<char> {
    seq!['{'] + spec_join_comma(
        ps.map_values(
            |p: (Seq<char>, Seq<char>)| spec_json_string(p.0) + seq![':'] + spec_json_string(p.1),
        ),
    ) + seq!['}']
}

/// The JSON text of a boolean.
pub open spec fn spec_bool_json(b: bool) -> Seq<char> {
    if b {
        "true"@
    } else {
        "false"@
    }
}

/// Write one character's JSON escape onto `out`.
fn push_json_escaped_char(out: &mut Vec<char>, c: char)
    ensures
        final(out)@ == old(out)@ + spec_json_escape_char(c),
{
    if c == '"' {
        out.push('\\');
        out.push('"');
    } else if c == '\\' {
        out.push('\\');
        out.push('\\');
    } else if c == '\u{8}' {
        out.push('\\');
        out.push('b');
    } else if c == '\t' {
        out.push('\\');
        out.push('t');
    } else if c == '\n' {
        out.push('\\');
        out.push('n');
    } else if c == '\u{c}' {
        out.push('\\');
        out.push('f');
    } else if c == '\r' {
        out.push('\\');
        out.push('r');
    } else {
        let code = c as u32;
        if code < 0x20 {
            out.push('\\');
            out.push('u');
            out.push('0');
            out.push('0');
            out.push(hex_digit_char(code / 16));
            out.push(hex_digit_char(code % 16));
        } else {
            out.push(c);
        }
    }
    proof {
        assert(out@ =~= old(out)@ + spec_json_escape_char(c));
    }
}

/// The JSON string for `s`: quoted and escaped.
pub fn json_string_chars(s: &str) -> (r: Vec<char>)
    ensures
        r@ == spec_json_string(s@),
{
    let mut out: Vec<char> = Vec::new();
    out.push('"');
    let chars = str_chars(s);
    let mut i: usize = 0;
    while i < chars.len()
        invariant
            i <= chars@.len(),
            chars@ == s@,
            out@ == seq!['"'] + spec_json_escape(s@.take(i as int)),
        decreases chars@.len() - i,
    {
        proof {
            assert(s@.take(i as int).push(s@[i as int]) =~= s@.take(i as int + 1));
            lemma_json_escape_push(s@.take(i as int), s@[i as int]);
            assert(seq!['"'] + (spec_json_escape(s@.take(i as int)) + spec_json_escape_char(
                s@[i as int],
            )) =~= (seq!['"'] + spec_json_escape(s@.take(i as int))) + spec_json_escape_char(
                s@[i as int],
            ));
        }
        push_json_escaped_char(&mut out, chars[i]);
        i = i + 1;
    }
    out.push('"');
    proof {
        assert(s@.take(s@.len() as int) =~= s@);
        assert(out@ =~= spec_json_string(s@));
    }
    out
}

/// Join the pieces with commas between them.
pub fn join_comma(items: &Vec<Vec<char>>) -> (r: Vec<char>)
    ensures
        r@ == spec_join_comma(items.deep_view()),
{
    let mut out: Vec<char> = Vec::new();
    let mut i: usize = 0;
    while i < items.len()
        invariant
            i <= items@.len(),
            out@ == spec_join_comma(items.deep_view().take(i as int)),
        decreases items@.len() - i,
    {
        proof {
            assert(items.deep_view().take(i as int).push(items@[i as int].deep_view())
                =~= items.deep_view().take(i as int + 1));
            lemma_join_comma_push(items.deep_view().take(i as int), items@[i as int].deep_view());
            assert(items@[i as int].deep_view() =~= items@[i as int]@);
        }
        if i > 0 {
            out.push(',');
        }
        push_chars(&mut out, &items[i]);
        proof {
            if i > 0 {
                assert(out@ =~= spec_join_comma(items.deep_view().take(i as int)) + seq![',']
                    + items@[i as int]@);
            } else {
                assert(items.deep_view().take(0) =~= Seq::<Seq<char>>::empty());
                assert(out@ =~= Seq::<char>::empty() + items@[0]@);
                assert(out@ =~= items@[0]@);
            }
        }
        i = i + 1;
    }
    proof {
        assert(items.deep_view().take(items@.len() as int) =~= items.deep_view());
    }
    out
}

/// The JSON array of the strings in `xs`.
pub fn string_array_json(xs: &Vec<String>) -> (r: Vec<char>)
    ensures
        r@ == spec_string_array_json(xs.deep_view()),
{
    let mut items: Vec<Vec<char>> = Vec::new();
    let mut i: usize = 0;
    while i < xs.len()
        invariant
            i <= xs@.len(),
            items.deep_view() == xs.deep_view().take(i as int).map_values(
                |s: Seq<char>| spec_json_string(s),
            ),
        decreases xs@.len() - i,
    {
        let item = json_string_chars(xs[i].as_str());
        let ghost prev = items.deep_view();
        items.push(item);
        proof {
            assert(item.deep_view() =~= item@);
            assert(items.deep_view() =~= prev.push(item@));
            assert(items.deep_view() =~= xs.deep_view().take(i as int + 1).map_values(
                |s: Seq<char>| spec_json_string(s),
            ));
        }
        i = i + 1;
    }
    proof {
        assert(xs.deep_view().take(xs@.len() as int) =~= xs.deep_view());
    }
    let mut out: Vec<char> = Vec::new();
    out.push('[');
    let joined = join_comma(&items);
    push_chars(&mut out, &joined);
    out.push(']');
    proof {
        assert(out@ =~= spec_string_array_json(xs.deep_view()));
    }
    out
}

/// The view of a list of key-value pairs.
pub open spec fn spec_pairs_view(ps: Seq<(String, String)>) -> Seq<(Seq<char>, Seq<char>)> {
    ps.map_values(|p: (String, String)| (p.0@, p.1@))
}

/// The JSON object of the key-value pairs in `ps`, in their given order.
pub fn pairs_json(ps: &Vec<(String, String)>) -> (r: Vec<char>)
    ensures
        r@ == spec_pairs_json(spec_pairs_view(ps@)),
{
    let ghost f = |p: (Seq<char>, Seq<char>)| spec_json_string(p.0) + seq![':'] + spec_json_string(
        p.1,
    );
    let mut items: Vec<Vec<char>> = Vec::new();
    let mut i: usize = 0;
    while i < ps.len()
        invariant
            i <= ps@.len(),
            f == (|p: (Seq<char>, Seq<char>)|
                spec_json_string(p.0) + seq![':'] + spec_json_string(p.1)),
            items.deep_view() == spec_pairs_view(ps@.take(i as int)).map_values(f),
        decreases ps@.len() - i,
    {
        let mut item = json_string_chars(ps[i].0.as_str());
        item.push(':');
        let value = json_string_chars(ps[i].1.as_str());
        push_chars(&mut item, &value);
        proof {
            assert(item@ =~= f((ps@[i as int].0@, ps@[i as int].1@)));
        }
        let ghost prev = items.deep_view();
        items.push(item);
        proof {
            assert(item.deep_view() =~= item@);
            assert(items.deep_view() =~= prev.push(item@));
            assert(spec_pairs_view(ps@.take(i as int + 1)) =~= spec_pairs_view(
                ps@.take(i as int),
            ).push((ps@[i as int].0@, ps@[i as int].1@)));
            assert(items.deep_view() =~= spec_pairs_view(ps@.take(i as int + 1)).map_values(f));
        }
        i = i + 1;
    }
    proof {
        assert(ps@.take(ps@.len() as int) =~= ps@);
    }
    let mut out: Vec<char> = Vec::new();
    out.push('{');
    let joined = join_comma(&items);
    push_chars(&mut out, &joined);
    out.push('}');
    proof {
        assert(out@ =~= spec_pairs_json(spec_pairs_view(ps@)));
    }
    out
}

/// Mathematical view of [`HookAttributes`].
pub struct HookAttributesView {
    /// The URL of the server that receives the webhook requests
    pub url: Seq<char>,
    /// Whether event details are delivered when the hook fires
    pub active: Option<bool>,
}

/// Configuration of the GitHub App's webhook: the URL of the server that
/// receives the webhook requests, and whether the hook is active.
pub struct HookAttributes {
    /// The URL of the server that receives the webhook requests
    pub url: String,
    /// Whether event details are delivered when the hook fires
    pub active: Option<bool>,
}

impl View for HookAttributes {
    type V = HookAttributesView;

    open spec fn view(&self) -> HookAttributesView {
        HookAttributesView {
            url: self.url@,
            active: self.active,
        }
    }
}

/// The JSON object of a webhook configuration: the url member, then the
/// active member when it is set.
pub open spec fn spec_hook_json(h: HookAttributesView) -> Seq<char> {
    seq!['{'] + "\"url\":"@ + spec_json_string(h.url) + (match h.active {
        Some(b) => ",\"active\":"@ + spec_bool_json(b),
        None => Seq::<char>::empty(),
    }) + seq!['}']
}

/// The JSON text of a webhook configuration.
pub fn hook_json(h: &HookAttributes) -> (r: Vec<char>)
    ensures
        r@ == spec_hook_json(h@),
{
    let mut out: Vec<char> = Vec::new();
    out.push('{');
    push_str_chars(&mut out, "\"url\":");
    let url = json_string_chars(h.url.as_str());
    push_chars(&mut out, &url);
    match h.active {
        Some(b) => {
            push_str_chars(&mut out, ",\"active\":");
            push_str_chars(&mut out, if b {
                "true"
            } else {
                "false"
            });
        },
        None => {},
    }
    out.push('}');
    proof {
        assert(out@ =~= spec_hook_json(h@));
    }
    out
}

/// Mathematical view of [`Manifest`].
pub struct ManifestView {
    /// The name of the GitHub App
    pub name: Option<Seq<char>>,
    /// The homepage of the GitHub App
    pub url: Seq<char>,
    /// The configuration of the GitHub App's webhook
    pub hook_attributes: Option<HookAttributesView>,
    /// Where the user is redirected after initiating the registration
    pub redirect_url: Option<Seq<char>>,
    /// Where the user is redirected after authorizing an installation
    pub callback_urls: Option<Seq<Seq<char>>>,
    /// Where users are redirected when additional setup is required
    pub setup_url: Option<Seq<char>>,
    /// A description of the GitHub App
    pub description: Option<Seq<char>>,
    /// Whether the GitHub App is available to the public
    pub public: Option<bool>,
    /// The events the GitHub App subscribes to
    pub default_events: Option<Seq<Seq<char>>>,
    /// The permissions the GitHub App needs, as name and access pairs
    pub default_permissions: Option<Seq<(Seq<char>, Seq<char>)>>,
    /// Whether the user is asked to authorize the app after installing it
    pub request_oauth_on_install: Option<bool>,
    /// Whether users are sent to the setup URL after updating an installation
    pub setup_on_update: Option<bool>,
}

/// Manifest for a GitHub App.
///
/// The manifest carries the configuration the app is registered with: its
/// homepage, and optional name, webhook configuration, redirect and callback
/// URLs, description, visibility, events and permissions. Only the homepage
/// is required.
pub struct Manifest {
    /// The name of the GitHub App
    pub name: Option<String>,
    /// The homepage of the GitHub App
    pub url: String,
    /// The configuration of the GitHub App's webhook
    pub hook_attributes: Option<HookAttributes>,
    /// Where the user is redirected after initiating the registration
    pub redirect_url: Option<String>,
    /// Where the user is redirected after authorizing an installation
    pub callback_urls: Option<Vec<String>>,
    /// Where users are redirected when additional setup is required
    pub setup_url: Option<String>,
    /// A description of the GitHub App
    pub description: Option<String>,
    /// Whether the GitHub App is available to the public
    pub public: Option<bool>,
    /// The events the GitHub App subscribes to
    pub default_events: Option<Vec<String>>,
    /// The permissions the GitHub App needs, as name and access pairs
    pub default_permissions: Option<Vec<(String, String)>>,
    /// Whether the user is asked to authorize the app after installing it
    pub request_oauth_on_install: Option<bool>,
    /// Whether users are sent to the setup URL after updating an installation
    pub setup_on_update: Option<bool>,
}

impl View for Manifest {
    type V = ManifestView;

    open spec fn view(&self) -> ManifestView {
        ManifestView {
            name: match self.name {
                Some(ref s) => Some(s@),
                None => None,
            },
            url: self.url@,
            hook_attributes: match self.hook_attributes {
                Some(ref h) => Some(h@),
                None => None,
            },
            redirect_url: match self.redirect_url {
                Some(ref s) => Some(s@),
                None => None,
            },
            callback_urls: match self.callback_urls {
                Some(ref v) => Some(v.deep_view()),
                None => None,
            },
            setup_url: match self.setup_url {
                Some(ref s) => Some(s@),
                None => None,
            },
            description: match self.description {
                Some(ref s) => Some(s@),
                None => None,
            },
            public: self.public,
            default_events: match self.default_events {
                Some(ref v) => Some(v.deep_view()),
                None => None,
            },
            default_permissions: match self.default_permissions {
                Some(ref v) => Some(spec_pairs_view(v@)),
                None => None,
            },
            request_oauth_on_install: self.request_oauth_on_install,
            setup_on_update: self.setup_on_update,
        }
    }
}

/// The name member, when the name is set.
pub open spec fn spec_field_name(m: ManifestView) -> Seq<Seq<char>> {
    match m.name {
        Some(n) => seq!["\"name\":"@ + spec_json_string(n)],
        None => Seq::<Seq<char>>::empty(),
    }
}

/// The url member; always present.
pub open spec fn spec_field_url(m: ManifestView) -> Seq<Seq<char>> {
    seq!["\"url\":"@ + spec_json_string(m.url)]
}

/// The hook_attributes member, when a webhook configuration is set.
pub open spec fn spec_field_hook(m: ManifestView) -> Seq<Seq<char>> {
    match m.hook_attributes {
        Some(h) => seq!["\"hook_attributes\":"@ + spec_hook_json(h)],
        None => Seq::<Seq<char>>::empty(),
    }
}

/// The redirect_url member, when it is set.
pub open spec fn spec_field_redirect(m: ManifestView) -> Seq<Seq<char>> {
    match m.redirect_url {
        Some(u) => seq!["\"redirect_url\":"@ + spec_json_string(u)],
        None => Seq::<Seq<char>>::empty(),
    }
}

/// The callback_urls member, when it is set.
pub open spec fn spec_field_callbacks(m: ManifestView) -> Seq<Seq<char>> {
    match m.callback_urls {
        Some(xs) => seq!["\"callback_urls\":"@ + spec_string_array_json(xs)],
        None => Seq::<Seq<char>>::empty(),
    }
}

/// The setup_url member, when it is set.
pub open spec fn spec_field_setup(m: ManifestView) -> Seq<Seq<char>> {
    match m.setup_url {
        Some(u) => seq!["\"setup_url\":"@ + spec_json_string(u)],
        None => Seq::<Seq<char>>::empty(),
    }
}

/// The description member, when it is set.
pub open spec fn spec_field_description(m: ManifestView) -> Seq<Seq<char>> {
    match m.description {
        Some(d) => seq!["\"description\":"@ + spec_json_string(d)],
        None => Seq::<Seq<char>>::empty(),
    }
}

/// The public member, when the visibility is set.
pub open spec fn spec_field_public(m: ManifestView) -> Seq<Seq<char>> {
    match m.public {
        Some(b) => seq!["\"public\":"@ + spec_bool_json(b)],
        None => Seq::<Seq<char>>::empty(),
    }
}

/// The default_events member, when it is set.
pub open spec fn spec_field_events(m: ManifestView) -> Seq<Seq<char>> {
    match m.default_events {
        Some(xs) => seq!["\"default_events\":"@ + spec_string_array_json(xs)],
        None => Seq::<Seq<char>>::empty(),
    }
}

/// The default_permissions member, when it is set.
pub open spec fn spec_field_permissions(m: ManifestView) -> Seq<Seq<char>> {
    match m.default_permissions {
        Some(ps) => seq!["\"default_permissions\":"@ + spec_pairs_json(ps)],
        None => Seq::<Seq<char>>::empty(),
    }
}

/// The request_oauth_on_install member, when it is set.
pub open spec fn spec_field_oauth(m: ManifestView) -> Seq<Seq<char>> {
    match m.request_oauth_on_install {
        Some(b) => seq!["\"request_oauth_on_install\":"@ + spec_bool_json(b)],
        None => Seq::<Seq<char>>::empty(),
    }
}

/// The setup_on_update member, when it is set.
pub open spec fn spec_field_update(m: ManifestView) -> Seq<Seq<char>> {
    match m.setup_on_update {
        Some(b) => seq!["\"setup_on_update\":"@ + spec_bool_json(b)],
        None => Seq::<Seq<char>>::empty(),
    }
}

/// The serialized members of a manifest, in declaration order, absent
/// optional fields omitted.
pub open spec fn spec_manifest_fields(m: ManifestView) -> Seq<Seq<char>> {
    spec_field_name(m) + spec_field_url(m) + spec_field_hook(m) + spec_field_redirect(m)
        + spec_field_callbacks(m) + spec_field_setup(m) + spec_field_description(m)
        + spec_field_public(m) + spec_field_events(m) + spec_field_permissions(m)
        + spec_field_oauth(m) + spec_field_update(m)
}

/// The JSON object a manifest serializes to.
pub open spec fn spec_manifest_json(m: ManifestView) -> Seq<char> {
    seq!['{'] + spec_join_comma(spec_manifest_fields(m)) + seq!['}']
}

/// Append one serialized member to the list of members.
fn push_field(fields: &mut Vec<Vec<char>>, label: &str, value: Vec<char>)
    ensures
        final(fields).deep_view() == old(fields).deep_view().push(label@ + value@),
{
    let mut item: Vec<char> = Vec::new();
    push_str_chars(&mut item, label);
    push_chars(&mut item, &value);
    let ghost item_text = item@;
    proof {
        assert(item.deep_view() =~= item_text);
        assert(item_text =~= label@ + value@);
    }
    let ghost prev = fields.deep_view();
    fields.push(item);
    proof {
        assert(fields.deep_view() =~= prev.push(item_text));
    }
}

impl Manifest {
    /// A manifest with only the required homepage set.
    pub fn new(url: String) -> (r: Manifest)
        ensures
            r@.url == url@,
            r@.name is None,
            r@.hook_attributes is None,
            r@.redirect_url is None,
            r@.callback_urls is None,
            r@.setup_url is None,
            r@.description is None,
            r@.public is None,
            r@.default_events is None,
            r@.default_permissions is None,
            r@.request_oauth_on_install is None,
            r@.setup_on_update is None,
    {
        Manifest {
            name: None,
            url,
            hook_attributes: None,
            redirect_url: None,
            callback_urls: None,
            setup_url: None,
            description: None,
            public: None,
            default_events: None,
            default_permissions: None,
            request_oauth_on_install: None,
            setup_on_update: None,
        }
    }

    /// Write the name member onto the member list.
    fn push_field_name(&self, fields: &mut Vec<Vec<char>>)
        ensures
            final(fields).deep_view() == old(fields).deep_view() + spec_field_name(self@),
    {
        match &self.name {
            Some(x) => {
                let v = json_string_chars(x.as_str());
                push_field(fields, "\"name\":", v);
                proof {
                    assert(fields.deep_view() =~= old(fields).deep_view() + spec_field_name(
                        self@,
                    ));
                }
            },
            None => {
                proof {
                    assert(fields.deep_view() =~= old(fields).deep_view() + spec_field_name(
                        self@,
                    ));
                }
            },
        }
    }

    /// Write the url member onto the member list.
    fn push_field_url(&self, fields: &mut Vec<Vec<char>>)
        ensures
            final(fields).deep_view() == old(fields).deep_view() + spec_field_url(self@),
    {
        let v = json_string_chars(self.url.as_str());
        push_field(fields, "\"url\":", v);
        proof {
            assert(fields.deep_view() =~= old(fields).deep_view() + spec_field_url(self@));
        }
    }

    /// Write the hook_attributes member onto the member list.
    fn push_field_hook(&self, fields: &mut Vec<Vec<char>>)
        ensures
            final(fields).deep_view() == old(fields).deep_view() + spec_field_hook(self@),
    {
        match &self.hook_attributes {
            Some(h) => {
                let v = hook_json(h);
                push_field(fields, "\"hook_attributes\":", v);
                proof {
                    assert(fields.deep_view() =~= old(fields).deep_view() + spec_field_hook(
                        self@,
                    ));
                }
            },
            None => {
                proof {
                    assert(fields.deep_view() =~= old(fields).deep_view() + spec_field_hook(
                        self@,
                    ));
                }
            },
        }
    }

    /// Write the redirect_url member onto the member list.
    fn push_field_redirect(&self, fields: &mut Vec<Vec<char>>)
        ensures
            final(fields).deep_view() == old(fields).deep_view() + spec_field_redirect(self@),
    {
        match &self.redirect_url {
            Some(x) => {
                let v = json_string_chars(x.as_str());
                push_field(fields, "\"redirect_url\":", v);
                proof {
                    assert(fields.deep_view() =~= old(fields).deep_view() + spec_field_redirect(
                        self@,
                    ));
                }
            },
            None => {
                proof {
                    assert(fields.deep_view() =~= old(fields).deep_view() + spec_field_redirect(
                        self@,
                    ));
                }
            },
        }
    }

    /// Write the callback_urls member onto the member list.
    fn push_field_callbacks(&self, fields: &mut Vec<Vec<char>>)
        ensures
            final(fields).deep_view() == old(fields).deep_view() + spec_field_callbacks(self@),
    {
        match &self.callback_urls {
            Some(xs) => {
                let v = string_array_json(xs);
                push_field(fields, "\"callback_urls\":", v);
                proof {
                    assert(fields.deep_view() =~= old(fields).deep_view() + spec_field_callbacks(
                        self@,
                    ));
                }
            },
            None => {
                proof {
                    assert(fields.deep_view() =~= old(fields).deep_view() + spec_field_callbacks(
                        self@,
                    ));
                }
            },
        }
    }

    /// Write the setup_url member onto the member list.
    fn push_field_setup(&self, fields: &mut Vec<Vec<char>>)
        ensures
            final(fields).deep_view() == old(fields).deep_view() + spec_field_setup(self@),
    {
        match &self.setup_url {
            Some(x) => {
                let v = json_string_chars(x.as_str());
                push_field(fields, "\"setup_url\":", v);
                proof {
                    assert(fields.deep_view() =~= old(fields).deep_view() + spec_field_setup(
                        self@,
                    ));
                }
            },
            None => {
                proof {
                    assert(fields.deep_view() =~= old(fields).deep_view() + spec_field_setup(
                        self@,
                    ));
                }
            },
        }
    }

    /// Write the description member onto the member list.
    fn push_field_description(&self, fields: &mut Vec<Vec<char>>)
        ensures
            final(fields).deep_view() == old(fields).deep_view() + spec_field_description(self@),
    {
        match &self.description {
            Some(x) => {
                let v = json_string_chars(x.as_str());
                push_field(fields, "\"description\":", v);
                proof {
                    assert(fields.deep_view() =~= old(fields).deep_view() + spec_field_description(
                        self@,
                    ));
                }
            },
            None => {
                proof {
                    assert(fields.deep_view() =~= old(fields).deep_view() + spec_field_description(
                        self@,
                    ));
                }
            },
        }
    }

    /// Write the public member onto the member list.
    fn push_field_public(&self, fields: &mut Vec<Vec<char>>)
        ensures
            final(fields).deep_view() == old(fields).deep_view() + spec_field_public(self@),
    {
        match self.public {
            Some(b) => {
                let v = str_chars(if b {
                    "true"
                } else {
                    "false"
                });
                push_field(fields, "\"public\":", v);
                proof {
                    assert(fields.deep_view() =~= old(fields).deep_view() + spec_field_public(
                        self@,
                    ));
                }
            },
            None => {
                proof {
                    assert(fields.deep_view() =~= old(fields).deep_view() + spec_field_public(
                        self@,
                    ));
                }
            },
        }
    }

    /// Write the default_events member onto the member list.
    fn push_field_events(&self, fields: &mut Vec<Vec<char>>)
        ensures
            final(fields).deep_view() == old(fields).deep_view() + spec_field_events(self@),
    {
        match &self.default_events {
            Some(xs) => {
                let v = string_array_json(xs);
                push_field(fields, "\"default_events\":", v);
                proof {
                    assert(fields.deep_view() =~= old(fields).deep_view() + spec_field_events(
                        self@,
                    ));
                }
            },
            None => {
                proof {
                    assert(fields.deep_view() =~= old(fields).deep_view() + spec_field_events(
                        self@,
                    ));
                }
            },
        }
    }

    /// Write the default_permissions member onto the member list.
    fn push_field_permissions(&self, fields: &mut Vec<Vec<char>>)
        ensures
            final(fields).deep_view() == old(fields).deep_view() + spec_field_permissions(self@),
    {
        match &self.default_permissions {
            Some(ps) => {
                let v = pairs_json(ps);
                push_field(fields, "\"default_permissions\":", v);
                proof {
                    assert(fields.deep_view() =~= old(fields).deep_view()
                        + spec_field_permissions(self@));
                }
            },
            None => {
                proof {
                    assert(fields.deep_view() =~= old(fields).deep_view()
                        + spec_field_permissions(self@));
                }
            },
        }
    }

    /// Write the request_oauth_on_install member onto the member list.
    fn push_field_oauth(&self, fields: &mut Vec<Vec<char>>)
        ensures
            final(fields).deep_view() == old(fields).deep_view() + spec_field_oauth(self@),
    {
        match self.request_oauth_on_install {
            Some(b) => {
                let v = str_chars(if b {
                    "true"
                } else {
                    "false"
                });
                push_field(fields, "\"request_oauth_on_install\":", v);
                proof {
                    assert(fields.deep_view() =~= old(fields).deep_view() + spec_field_oauth(
                        self@,
                    ));
                }
            },
            None => {
                proof {
                    assert(fields.deep_view() =~= old(fields).deep_view() + spec_field_oauth(
                        self@,
                    ));
                }
            },
        }
    }

    /// Write the setup_on_update member onto the member list.
    fn push_field_update(&self, fields: &mut Vec<Vec<char>>)
        ensures
            final(fields).deep_view() == old(fields).deep_view() + spec_field_update(self@),
    {
        match self.setup_on_update {
            Some(b) => {
                let v = str_chars(if b {
                    "true"
                } else {
                    "false"
                });
                push_field(fields, "\"setup_on_update\":", v);
                proof {
                    assert(fields.deep_view() =~= old(fields).deep_view() + spec_field_update(
                        self@,
                    ));
                }
            },
            None => {
                proof {
                    assert(fields.deep_view() =~= old(fields).deep_view() + spec_field_update(
                        self@,
                    ));
                }
            },
        }
    }

    /// Serialize the manifest to its JSON object: fields in declaration
    /// order, absent optional fields omitted.
    #[verifier::rlimit(60)]
    pub fn to_json(&self) -> (r: String)
        ensures
            r@ == spec_manifest_json(self@),
    {
        let mut fields: Vec<Vec<char>> = Vec::new();
        proof {
            assert(fields.deep_view() =~= Seq::<Seq<char>>::empty());
        }
        self.push_field_name(&mut fields);
        self.push_field_url(&mut fields);
        self.push_field_hook(&mut fields);
        self.push_field_redirect(&mut fields);
        self.push_field_callbacks(&mut fields);
        self.push_field_setup(&mut fields);
        self.push_field_description(&mut fields);
        self.push_field_public(&mut fields);
        self.push_field_events(&mut fields);
        self.push_field_permissions(&mut fields);
        self.push_field_oauth(&mut fields);
        self.push_field_update(&mut fields);
        proof {
            assert(fields.deep_view() =~= spec_manifest_fields(self@));
        }
        let mut out: Vec<char> = Vec::new();
        out.push('{');
        let joined = join_comma(&fields);
        push_chars(&mut out, &joined);
        out.push('}');
        proof {
            assert(out@ =~= spec_manifest_json(self@));
        }
        chars_string(&out)
    }
}

/// A manifest with only the required field set serializes to an object
/// holding exactly the url member: every optional field is omitted.
pub proof fn lemma_minimal_manifest_json(m: ManifestView)
    requires
        m.name is None,
        m.hook_attributes is None,
        m.redirect_url is None,
        m.callback_urls is None,
        m.setup_url is None,
        m.description is None,
        m.public is None,
        m.default_events is None,
        m.default_permissions is None,
        m.request_oauth_on_install is None,
        m.setup_on_update is None,
    ensures
        spec_manifest_json(m) == seq!['{'] + ("\"url\":"@ + spec_json_string(m.url)) + seq!['}'],
{
    let fields = spec_manifest_fields(m);
    assert(fields =~= seq!["\"url\":"@ + spec_json_string(m.url)]);
    assert(spec_join_comma(fields) == fields[0]);
}

} // verus!

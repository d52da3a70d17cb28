use vstd::prelude::*;
use crate::error::{JuizError, is_key_error};
use crate::strings::{concat, string_of};
use crate::value::{Value, json_str, json_get, obj_get_str};

verus! {

/// The identifier of an object: `broker_type://broker/class/object::type`.
pub type Identifier = String;

/// The manifest key under which an object's type name stands.
pub const KEY_TYPE_NAME: &'static str = "type_name";

pub open spec fn key_type_name() -> Seq<char> {
    KEY_TYPE_NAME@
}

/// The identifier built from its five parts.
pub open spec fn spec_identifier(
    broker_type_name: Seq<char>,
    broker_name: Seq<char>,
    class_name: Seq<char>,
    typename: Seq<char>,
    object_name: Seq<char>,
) -> Seq<char> {
    broker_type_name + "://"@ + broker_name + "/"@ + class_name + "/"@ + object_name + "::"@ + typename
}

/// The identifier of a connection from `source` to `destination` through the
/// argument `arg_name`.
pub open spec fn spec_connection_identifier(
    source: Seq<char>,
    destination: Seq<char>,
    arg_name: Seq<char>,
) -> Seq<char> {
    "connnection://"@ + source + "|"@ + arg_name + "|"@ + destination
}

/// Builds an identifier: `broker_type_name://broker_name/class_name/object_name::typename`.
pub fn identifier_new(
    broker_type_name: &str,
    broker_name: &str,
    class_name: &str,
    typename: &str,
    object_name: &str,
) -> (r: Identifier)
    ensures
        r@ == spec_identifier(broker_type_name@, broker_name@, class_name@, typename@, object_name@),
{
    let s = string_of(broker_type_name);
    let s = concat(s, "://");
    let s = concat(s, broker_name);
    let s = concat(s, "/");
    let s = concat(s, class_name);
    let s = concat(s, "/");
    let s = concat(s, object_name);
    let s = concat(s, "::");
    concat(s, typename)
}

/// Builds the identifier of a connection: `connnection://source|arg_name|destination`.
pub fn connection_identifier_new(source_id: Identifier, destination_id: Identifier, arg_name: &str) -> (r: Identifier)
    ensures
        r@ == spec_connection_identifier(source_id@, destination_id@, arg_name@),
{
    let s = string_of("connnection://");
    let s = concat(s, source_id.as_str());
    let s = concat(s, "|");
    let s = concat(s, arg_name);
    let s = concat(s, "|");
    concat(s, destination_id.as_str())
}

pub open spec fn or_default(o: Option<Seq<char>>, d: Seq<char>) -> Seq<char> {
    match o {
        Some(s) => s,
        None => d,
    }
}

/// The identifier that a manifest gives: its `identifier` member where that is
/// a string; else the one built from `name` and `typename`, with
/// `broker_name` and `broker_type_name` where the manifest has them as
/// strings and the defaults where it does not. `None` where the manifest lacks
/// a string `name` or `typename`.
pub open spec fn manifest_identifier(
    default_broker_type_name: Seq<char>,
    default_broker_name: Seq<char>,
    class_name: Seq<char>,
    manifest: crate::value::JsonView,
) -> Option<Seq<char>> {
    match json_str(manifest, "identifier"@) {
        Some(id) => Some(id),
        None => match (json_str(manifest, "name"@), json_str(manifest, key_type_name())) {
            (Some(object_name), Some(typename)) => Some(
                spec_identifier(
                    or_default(json_str(manifest, "broker_type_name"@), default_broker_type_name),
                    or_default(json_str(manifest, "broker_name"@), default_broker_name),
                    class_name,
                    typename,
                    object_name,
                ),
            ),
            _ => None,
        },
    }
}

/// The error with which reading an identifier from a manifest fails: that of
/// `name` where it is not a string member, else that of `typename`.
pub open spec fn manifest_identifier_error(e: JuizError, manifest: crate::value::JsonView) -> bool {
    if json_str(manifest, "name"@) is None {
        is_key_error(e, json_get(manifest, "name"@) is None, "name"@)
    } else {
        is_key_error(e, json_get(manifest, key_type_name()) is None, key_type_name())
    }
}

/// The identifier that a manifest gives (see `manifest_identifier`).
pub fn identifier_from_manifest(
    default_broker_type_name: &str,
    default_broker_name: &str,
    class_name: &str,
    manifest: &Value,
) -> (r: Result<Identifier, JuizError>)
    ensures
        r is Ok <==> manifest_identifier(default_broker_type_name@, default_broker_name@, class_name@, manifest@) is Some,
        r matches Ok(id) ==> Some(id@) == manifest_identifier(
            default_broker_type_name@,
            default_broker_name@,
            class_name@,
            manifest@,
        ),
        r matches Err(e) ==> manifest_identifier_error(e, manifest@),
{
    match obj_get_str(manifest, "identifier") {
        Ok(id) => Ok(string_of(id)),
        Err(_) => {
            let object_name = match obj_get_str(manifest, "name") {
                Ok(s) => s,
                Err(e) => return Err(e),
            };
            let typename = match obj_get_str(manifest, KEY_TYPE_NAME) {
                Ok(s) => s,
                Err(e) => return Err(e),
            };
            let broker_name = match obj_get_str(manifest, "broker_name") {
                Ok(s) => s,
                Err(_) => default_broker_name,
            };
            let broker_type_name = match obj_get_str(manifest, "broker_type_name") {
                Ok(s) => s,
                Err(_) => default_broker_type_name,
            };
            Ok(identifier_new(broker_type_name, broker_name, class_name, typename, object_name))
        },
    }
}

/// An identifier read from a manifest that has no string `identifier` but a
/// string `name` `n` and type name `t`: the broker type, `://`, the broker,
/// `/`, the class, `/`, `n`, `::`, `t`, where the broker type and the broker
/// are the manifest's `broker_type_name` and `broker_name` where those are
/// strings, and else the default broker type and the default broker. A
/// manifest's string `identifier` is taken as it stands.
pub proof fn law_identifier_from_manifest_parts(
    default_broker_type_name: Seq<char>,
    default_broker_name: Seq<char>,
    class_name: Seq<char>,
    manifest: crate::value::JsonView,
    n: Seq<char>,
    t: Seq<char>,
)
    requires
        json_str(manifest, "name"@) == Some(n),
        json_str(manifest, key_type_name()) == Some(t),
    ensures
        json_str(manifest, "identifier"@) matches Some(id) ==> manifest_identifier(
            default_broker_type_name,
            default_broker_name,
            class_name,
            manifest,
        ) == Some(id),
        json_str(manifest, "identifier"@) is None && json_str(manifest, "broker_type_name"@) is None && json_str(
            manifest,
            "broker_name"@,
        ) is None ==> manifest_identifier(default_broker_type_name, default_broker_name, class_name, manifest)
            == Some(default_broker_type_name + "://"@ + default_broker_name + "/"@ + class_name + "/"@ + n + "::"@ + t),
        json_str(manifest, "identifier"@) is None ==> manifest_identifier(
            default_broker_type_name,
            default_broker_name,
            class_name,
            manifest,
        ) == Some(
            (match json_str(manifest, "broker_type_name"@) {
                Some(bt) => bt,
                None => default_broker_type_name,
            }) + "://"@ + (match json_str(manifest, "broker_name"@) {
                Some(b) => b,
                None => default_broker_name,
            }) + "/"@ + class_name + "/"@ + n + "::"@ + t,
        ),
{
}

/// The identifier of an object of the core broker.
pub fn _create_identifier(class_name: &str, typename: &str, object_name: &str) -> (r: Identifier)
    ensures
        r@ == spec_identifier("core"@, "core"@, class_name@, typename@, object_name@),
{
    identifier_new("core", "core", class_name, typename, object_name)
}

/// The identifier of a factory of the core broker: its object name is its type name.
pub fn _create_factory_identifier(class_name: &str, typename: &str) -> (r: Identifier)
    ensures
        r@ == spec_identifier("core"@, "core"@, class_name@, typename@, typename@),
{
    identifier_new("core", "core", class_name, typename, typename)
}

/// The identifier that a manifest gives, with the core broker as default.
pub fn create_identifier_from_manifest(class_name: &str, manifest: &Value) -> (r: Result<Identifier, JuizError>)
    ensures
        r is Ok <==> manifest_identifier("core"@, "core"@, class_name@, manifest@) is Some,
        r matches Ok(id) ==> Some(id@) == manifest_identifier("core"@, "core"@, class_name@, manifest@),
        r matches Err(e) ==> manifest_identifier_error(e, manifest@),
{
    identifier_from_manifest("core", "core", class_name, manifest)
}


/// The pattern that an identifier's text matches.
pub const IDENTIFIER_PATTERN: &'static str = "^(.+?)://(.+?)/(.+?)/(.+?)::(.+?)$";

pub open spec fn identifier_pattern() -> Seq<char> {
    IDENTIFIER_PATTERN@
}

/// A part of an identifier: at least one character, none of them a line feed
/// (what `.+?` matches).
pub open spec fn identifier_part(p: Seq<char>) -> bool {
    &&& p.len() > 0
    &&& forall|i: int| 0 <= i < p.len() ==> p[i] != '\n'
}

/// `parts` (broker type, broker, class, object, type) split `text` as the
/// identifier pattern does.
pub open spec fn identifier_split(text: Seq<char>, parts: Seq<Seq<char>>) -> bool {
    &&& parts.len() == 5
    &&& forall|i: int| 0 <= i < 5 ==> identifier_part(#[trigger] parts[i])
    &&& text == spec_identifier(parts[0], parts[1], parts[2], parts[4], parts[3])
}

/// The lengths of the first four parts of `p` come no later, in the order of
/// first part, then second, third and fourth, than those of `q`.
pub open spec fn shorter_or_same_split(p: Seq<Seq<char>>, q: Seq<Seq<char>>) -> bool {
    ||| p[0].len() < q[0].len()
    ||| p[0].len() == q[0].len() && p[1].len() < q[1].len()
    ||| p[0].len() == q[0].len() && p[1].len() == q[1].len() && p[2].len() < q[2].len()
    ||| p[0].len() == q[0].len() && p[1].len() == q[1].len() && p[2].len() == q[2].len() && p[3].len() <= q[3].len()
}

/// The split that the lazy groups of the identifier pattern pick: of all the
/// splits, the one whose first part is shortest, then its second, third and
/// fourth.
pub open spec fn identifier_preferred_split(text: Seq<char>, parts: Seq<Seq<char>>) -> bool {
    &&& identifier_split(text, parts)
    &&& forall|q: Seq<Seq<char>>| #[trigger] identifier_split(text, q) ==> shorter_or_same_split(parts, q)
}

/// Whether `text` matches the identifier pattern.
pub open spec fn identifier_matches(text: Seq<char>) -> bool {
    exists|parts: Seq<Seq<char>>| identifier_split(text, parts)
}

/// What `regex::Regex::new(pattern)` followed by `captures(haystack)` gives
/// where the pattern compiles: for each group, starting with the whole match,
/// the text it captured.
pub uninterp spec fn regex_captures_of(pattern: Seq<char>, haystack: Seq<char>) -> Option<Seq<Option<Seq<char>>>>;

#[verifier::external_type_specification]
#[verifier::external_body]
pub struct ExRegexError(regex::Error);

/// Compiles `pattern` with `regex::Regex::new` and runs `Regex::captures` on
/// `haystack`, handing back the groups' texts. Claimed: the captures are a
/// function of the pattern and the haystack; for the identifier pattern, the
/// pattern compiles, there are captures exactly when the haystack matches it
/// (anchored at both ends, every group one or more characters other than a
/// line feed), the whole match is the haystack, and the five groups split the
/// haystack around `://`, `/`, `/` and `::`: the split that the lazy groups
/// prefer under the leftmost-first semantics, whose first group is shortest,
/// then its second, third and fourth.
#[verifier::external_body]
fn regex_captures(pattern: &str, haystack: &str) -> (r: Result<Option<Vec<Option<String>>>, regex::Error>)
    ensures
        r matches Ok(c) ==> c.deep_view() == regex_captures_of(pattern@, haystack@),
        pattern@ == identifier_pattern() ==> r is Ok,
        pattern@ == identifier_pattern() ==> (r matches Ok(c) ==> (c is Some <==> identifier_matches(haystack@))),
        pattern@ == identifier_pattern() ==> (r matches Ok(Some(groups)) ==> {
            &&& groups@.len() == 6
            &&& forall|i: int| 0 <= i < 6 ==> #[trigger] groups@[i] is Some
            &&& groups@[0]->0@ == haystack@
            &&& identifier_preferred_split(
                haystack@,
                seq![groups@[1]->0@, groups@[2]->0@, groups@[3]->0@, groups@[4]->0@, groups@[5]->0@],
            )
        }),
{
    match regex::Regex::new(pattern) {
        Ok(re) => Ok(match re.captures(haystack) {
            Some(c) => Some(c.iter().map(|m| m.map(|m| m.as_str().to_string())).collect()),
            None => None,
        }),
        Err(e) => Err(e),
    }
}

/// An identifier together with its parts.
#[derive(PartialEq, Debug)]
pub struct IdentifierStruct {
    pub identifier: Identifier,
    pub class_name: String,
    pub typename: String,
    pub object_name: String,
    pub broker_name: String,
    pub broker_type_name: String,
}

/// The parts of an identifier in the order of the pattern's groups.
pub open spec fn struct_parts(s: IdentifierStruct) -> Seq<Seq<char>> {
    seq![s.broker_type_name@, s.broker_name@, s.class_name@, s.object_name@, s.typename@]
}

/// The captured text of a group, where the group took part in the match.
fn group_text(groups: &Vec<Option<String>>, i: usize) -> (r: Option<String>)
    requires
        i < groups@.len(),
    ensures
        r.deep_view() == groups@[i as int].deep_view(),
{
    match &groups[i] {
        Some(s) => Some(s.clone()),
        None => None,
    }
}

/// Splits an identifier into its parts with the identifier pattern. Fails
/// with `IdentifierParseError` exactly where the text does not match.
pub fn parse_identifier(identifier: &Identifier) -> (r: Result<IdentifierStruct, JuizError>)
    ensures
        r is Ok <==> identifier_matches(identifier@),
        r matches Ok(s) ==> s.identifier@ == identifier@ && identifier_preferred_split(identifier@, struct_parts(s)),
        r matches Err(e) ==> e matches JuizError::IdentifierParseError { identifier: t } && t@ == identifier@,
{
    let captured = regex_captures(IDENTIFIER_PATTERN, identifier.as_str());
    let not_matched = JuizError::IdentifierParseError { identifier: identifier.clone() };
    match captured {
        Ok(Some(groups)) => {
            if groups.len() < 6 {
                return Err(not_matched);
            }
            let g1 = group_text(&groups, 1);
            let g2 = group_text(&groups, 2);
            let g3 = group_text(&groups, 3);
            let g4 = group_text(&groups, 4);
            let g5 = group_text(&groups, 5);
            match (g1, g2, g3, g4, g5) {
                (Some(broker_type_name), Some(broker_name), Some(class_name), Some(object_name), Some(typename)) => {
                    let s = IdentifierStruct {
                        identifier: identifier.clone(),
                        class_name,
                        typename,
                        object_name,
                        broker_name,
                        broker_type_name,
                    };
                    proof {
                        assert(struct_parts(s) =~= seq![
                            groups@[1]->0@,
                            groups@[2]->0@,
                            groups@[3]->0@,
                            groups@[4]->0@,
                            groups@[5]->0@,
                        ]);
                    }
                    Ok(s)
                },
                _ => Err(not_matched),
            }
        },
        _ => Err(not_matched),
    }
}

/// Splits an identifier that matches the identifier pattern into its parts.
pub fn digest_identifier(identifier: &Identifier) -> (r: IdentifierStruct)
    requires
        identifier_matches(identifier@),
    ensures
        r.identifier@ == identifier@,
        identifier_preferred_split(identifier@, struct_parts(r)),
{
    match parse_identifier(identifier) {
        Ok(s) => s,
        Err(_) => {
            proof {
                assert(false);
            }
            IdentifierStruct {
                identifier: identifier.clone(),
                class_name: String::new(),
                typename: String::new(),
                object_name: String::new(),
                broker_name: String::new(),
                broker_type_name: String::new(),
            }
        },
    }
}

impl IdentifierStruct {
    /// The parts of an identifier that matches the identifier pattern.
    pub fn from_identifier(identifier: Identifier) -> (r: IdentifierStruct)
        requires
            identifier_matches(identifier@),
        ensures
            r.identifier@ == identifier@,
            identifier_preferred_split(identifier@, struct_parts(r)),
    {
        digest_identifier(&identifier)
    }

    /// The identifier that the parts build.
    pub fn to_identifier(&self) -> (r: Identifier)
        ensures
            r@ == spec_identifier(
                self.broker_type_name@,
                self.broker_name@,
                self.class_name@,
                self.typename@,
                self.object_name@,
            ),
    {
        identifier_new(
            self.broker_type_name.as_str(),
            self.broker_name.as_str(),
            self.class_name.as_str(),
            self.typename.as_str(),
            self.object_name.as_str(),
        )
    }

    /// Replaces the class name; the other fields, `identifier` among them, stay.
    pub fn set_class_name<'a>(&'a mut self, class_name: &str) -> (r: &'a IdentifierStruct)
        ensures
            *r == *final(self),
            final(self).class_name@ == class_name@,
            final(self).identifier == old(self).identifier,
            final(self).typename == old(self).typename,
            final(self).object_name == old(self).object_name,
            final(self).broker_name == old(self).broker_name,
            final(self).broker_type_name == old(self).broker_type_name,
    {
        self.class_name = string_of(class_name);
        self
    }
}

/// Splitting an identifier and building it again from the parts gives back the
/// identifier.
pub proof fn law_split_then_build(identifier: Seq<char>, s: IdentifierStruct)
    requires
        identifier_split(identifier, struct_parts(s)),
    ensures
        spec_identifier(s.broker_type_name@, s.broker_name@, s.class_name@, s.typename@, s.object_name@)
            == identifier,
{
}


/// A part that holds none of the separators' characters.
pub open spec fn plain_part(p: Seq<char>) -> bool {
    &&& identifier_part(p)
    &&& forall|i: int| 0 <= i < p.len() ==> p[i] != ':' && p[i] != '/'
}

/// How often `c` occurs in `s`.
pub open spec fn char_count(s: Seq<char>, c: char) -> nat
    decreases s.len(),
{
    if s.len() == 0 {
        0
    } else {
        char_count(s.drop_last(), c) + if s.last() == c {
            1nat
        } else {
            0nat
        }
    }
}

proof fn lemma_char_count_add(a: Seq<char>, b: Seq<char>, c: char)
    ensures
        char_count(a + b, c) == char_count(a, c) + char_count(b, c),
    decreases b.len(),
{
    if b.len() > 0 {
        lemma_char_count_add(a, b.drop_last(), c);
        assert((a + b).drop_last() =~= a + b.drop_last());
    } else {
        assert(a + b =~= a);
    }
}

proof fn lemma_char_count_zero(s: Seq<char>, c: char)
    ensures
        char_count(s, c) == 0 <==> forall|i: int| 0 <= i < s.len() ==> s[i] != c,
    decreases s.len(),
{
    if s.len() > 0 {
        lemma_char_count_zero(s.drop_last(), c);
        if char_count(s, c) == 0 {
            assert forall|i: int| 0 <= i < s.len() implies s[i] != c by {
                if i < s.len() - 1 {
                    assert(s.drop_last()[i] == s[i]);
                }
            }
        }
        if forall|i: int| 0 <= i < s.len() ==> s[i] != c {
            assert forall|i: int| 0 <= i < s.drop_last().len() implies s.drop_last()[i] != c by {
                assert(s[i] != c);
            }
            assert(s[s.len() - 1] != c);
        }
    }
}

/// Where neither `x` nor `u` holds the separator's first character, the
/// separator splits `x + sep + y` and `u + sep + v` alike.
proof fn lemma_split_at_first(x: Seq<char>, sep: Seq<char>, y: Seq<char>, u: Seq<char>, v: Seq<char>)
    requires
        sep.len() > 0,
        forall|i: int| 0 <= i < x.len() ==> x[i] != sep[0],
        forall|i: int| 0 <= i < u.len() ==> u[i] != sep[0],
        x + sep + y == u + sep + v,
    ensures
        x == u,
        y == v,
{
    let t = x + sep + y;
    if x.len() < u.len() {
        assert(t[x.len() as int] == sep[0]);
        assert((u + sep + v)[x.len() as int] == u[x.len() as int]);
    } else if u.len() < x.len() {
        assert((u + sep + v)[u.len() as int] == sep[0]);
        assert(t[u.len() as int] == x[u.len() as int]);
    }
    assert(x =~= t.subrange(0, x.len() as int));
    assert(u =~= (u + sep + v).subrange(0, u.len() as int));
    assert(y =~= t.subrange((x.len() + sep.len()) as int, t.len() as int));
    assert(v =~= (u + sep + v).subrange((u.len() + sep.len()) as int, t.len() as int));
}

/// The number of times `c` occurs in an identifier, beyond those in its parts.
proof fn lemma_identifier_char_count(p: Seq<Seq<char>>, c: char)
    requires
        p.len() == 5,
    ensures
        char_count(spec_identifier(p[0], p[1], p[2], p[4], p[3]), c)
            == char_count(p[0], c) + char_count(p[1], c) + char_count(p[2], c) + char_count(p[3], c)
            + char_count(p[4], c) + char_count("://"@, c) + 2 * char_count("/"@, c) + char_count("::"@, c),
{
    let a1 = p[0] + "://"@;
    let a2 = a1 + p[1];
    let a3 = a2 + "/"@;
    let a4 = a3 + p[2];
    let a5 = a4 + "/"@;
    let a6 = a5 + p[3];
    let a7 = a6 + "::"@;
    lemma_char_count_add(p[0], "://"@, c);
    lemma_char_count_add(a1, p[1], c);
    lemma_char_count_add(a2, "/"@, c);
    lemma_char_count_add(a3, p[2], c);
    lemma_char_count_add(a4, "/"@, c);
    lemma_char_count_add(a5, p[3], c);
    lemma_char_count_add(a6, "::"@, c);
    lemma_char_count_add(a7, p[4], c);
}

proof fn lemma_separator_counts()
    ensures
        char_count("://"@, ':') == 1,
        char_count("://"@, '/') == 2,
        char_count("/"@, ':') == 0,
        char_count("/"@, '/') == 1,
        char_count("::"@, ':') == 2,
        char_count("::"@, '/') == 0,
        "://"@[0] == ':',
        "/"@[0] == '/',
        "::"@[0] == ':',
{
    reveal_strlit("://");
    reveal_strlit("/");
    reveal_strlit("::");
    reveal_with_fuel(char_count, 4);
    assert("://"@ =~= seq![':', '/', '/']);
    assert("/"@ =~= seq!['/']);
    assert("::"@ =~= seq![':', ':']);
    assert(seq![':', '/', '/'].drop_last() =~= seq![':', '/']);
    assert(seq![':', '/'].drop_last() =~= seq![':']);
    assert(seq![':'].drop_last() =~= Seq::<char>::empty());
    assert(seq!['/'].drop_last() =~= Seq::<char>::empty());
    assert(seq![':', ':'].drop_last() =~= seq![':']);
}

/// Building an identifier from parts that hold no `:` and no `/`, and
/// splitting it with the identifier pattern, gives back the parts: the text
/// matches, and every split of it is the one it was built from.
pub proof fn law_build_then_split(
    broker_type_name: Seq<char>,
    broker_name: Seq<char>,
    class_name: Seq<char>,
    typename: Seq<char>,
    object_name: Seq<char>,
    parts: Seq<Seq<char>>,
)
    requires
        plain_part(broker_type_name),
        plain_part(broker_name),
        plain_part(class_name),
        plain_part(typename),
        plain_part(object_name),
    ensures
        identifier_matches(spec_identifier(broker_type_name, broker_name, class_name, typename, object_name)),
        identifier_split(spec_identifier(broker_type_name, broker_name, class_name, typename, object_name), parts)
            ==> parts == seq![broker_type_name, broker_name, class_name, object_name, typename],
{
    let built = seq![broker_type_name, broker_name, class_name, object_name, typename];
    let text = spec_identifier(broker_type_name, broker_name, class_name, typename, object_name);
    assert(identifier_split(text, built));
    if identifier_split(text, parts) {
        lemma_separator_counts();
        lemma_identifier_char_count(built, ':');
        lemma_identifier_char_count(built, '/');
        lemma_identifier_char_count(parts, ':');
        lemma_identifier_char_count(parts, '/');
        assert forall|k: int| 0 <= k < 5 implies char_count(#[trigger] built[k], ':') == 0 && char_count(built[k], '/') == 0 by {
            assert(plain_part(built[k]));
            lemma_char_count_zero(built[k], ':');
            lemma_char_count_zero(built[k], '/');
        }
        assert forall|k: int| 0 <= k < 5 implies (forall|i: int| 0 <= i < (#[trigger] parts[k]).len() ==> parts[k][i] != ':' && parts[k][i] != '/') by {
            lemma_char_count_zero(parts[k], ':');
            lemma_char_count_zero(parts[k], '/');
        }
        let q = parts;
        // broker type
        let y1 = broker_name + "/"@ + class_name + "/"@ + object_name + "::"@ + typename;
        let v1 = q[1] + "/"@ + q[2] + "/"@ + q[3] + "::"@ + q[4];
        assert(text =~= broker_type_name + "://"@ + y1);
        assert(text =~= q[0] + "://"@ + v1);
        lemma_split_at_first(broker_type_name, "://"@, y1, q[0], v1);
        // broker
        let y2 = class_name + "/"@ + object_name + "::"@ + typename;
        let v2 = q[2] + "/"@ + q[3] + "::"@ + q[4];
        assert(y1 =~= broker_name + "/"@ + y2);
        assert(v1 =~= q[1] + "/"@ + v2);
        lemma_split_at_first(broker_name, "/"@, y2, q[1], v2);
        // class
        let y3 = object_name + "::"@ + typename;
        let v3 = q[3] + "::"@ + q[4];
        assert(y2 =~= class_name + "/"@ + y3);
        assert(v2 =~= q[2] + "/"@ + v3);
        lemma_split_at_first(class_name, "/"@, y3, q[2], v3);
        // object and type
        lemma_split_at_first(object_name, "::"@, typename, q[3], q[4]);
        assert(parts =~= built);
    }
}
/// Where `x` does not hold the separator's first character, the separator
/// after `u` comes no earlier than the one after `x`, and at the same place
/// only where `u` is `x`.
proof fn lemma_split_not_before(x: Seq<char>, sep: Seq<char>, y: Seq<char>, u: Seq<char>, v: Seq<char>)
    requires
        sep.len() > 0,
        forall|i: int| 0 <= i < x.len() ==> x[i] != sep[0],
        x + sep + y == u + sep + v,
    ensures
        u.len() >= x.len(),
        u.len() == x.len() ==> u == x && y == v,
{
    let t = x + sep + y;
    if u.len() < x.len() {
        assert((u + sep + v)[u.len() as int] == sep[0]);
        assert(t[u.len() as int] == x[u.len() as int]);
    }
    if u.len() == x.len() {
        assert(x =~= t.subrange(0, x.len() as int));
        assert(u =~= (u + sep + v).subrange(0, u.len() as int));
        assert(y =~= t.subrange((x.len() + sep.len()) as int, t.len() as int));
        assert(v =~= (u + sep + v).subrange((u.len() + sep.len()) as int, t.len() as int));
    }
}

/// The parts that the lazy groups give back from a built identifier: the
/// broker type and the object name hold no `:`, the broker and class names
/// no `/`.
pub open spec fn lazily_splittable(
    broker_type_name: Seq<char>,
    broker_name: Seq<char>,
    class_name: Seq<char>,
    typename: Seq<char>,
    object_name: Seq<char>,
) -> bool {
    &&& identifier_part(broker_type_name)
    &&& identifier_part(broker_name)
    &&& identifier_part(class_name)
    &&& identifier_part(typename)
    &&& identifier_part(object_name)
    &&& forall|i: int| 0 <= i < broker_type_name.len() ==> broker_type_name[i] != ':'
    &&& forall|i: int| 0 <= i < broker_name.len() ==> broker_name[i] != '/'
    &&& forall|i: int| 0 <= i < class_name.len() ==> class_name[i] != '/'
    &&& forall|i: int| 0 <= i < object_name.len() ==> object_name[i] != ':'
}

/// Every split of a lazily splittable built identifier is at least as long,
/// part by part, as the one it was built from, and equal in length only
/// where it is that one.
proof fn lemma_built_split_first(
    broker_type_name: Seq<char>,
    broker_name: Seq<char>,
    class_name: Seq<char>,
    typename: Seq<char>,
    object_name: Seq<char>,
    q: Seq<Seq<char>>,
)
    requires
        lazily_splittable(broker_type_name, broker_name, class_name, typename, object_name),
        identifier_split(spec_identifier(broker_type_name, broker_name, class_name, typename, object_name), q),
    ensures
        shorter_or_same_split(seq![broker_type_name, broker_name, class_name, object_name, typename], q),
        q[0].len() == broker_type_name.len() && q[1].len() == broker_name.len() && q[2].len() == class_name.len()
            && q[3].len() == object_name.len() ==> q == seq![broker_type_name, broker_name, class_name, object_name, typename],
{
    lemma_separator_counts();
    let built = seq![broker_type_name, broker_name, class_name, object_name, typename];
    let text = spec_identifier(broker_type_name, broker_name, class_name, typename, object_name);
    let y1 = broker_name + "/"@ + class_name + "/"@ + object_name + "::"@ + typename;
    let v1 = q[1] + "/"@ + q[2] + "/"@ + q[3] + "::"@ + q[4];
    assert(text =~= broker_type_name + "://"@ + y1);
    assert(text =~= q[0] + "://"@ + v1);
    lemma_split_not_before(broker_type_name, "://"@, y1, q[0], v1);
    if q[0].len() == broker_type_name.len() {
        let y2 = class_name + "/"@ + object_name + "::"@ + typename;
        let v2 = q[2] + "/"@ + q[3] + "::"@ + q[4];
        assert(y1 =~= broker_name + "/"@ + y2);
        assert(v1 =~= q[1] + "/"@ + v2);
        lemma_split_not_before(broker_name, "/"@, y2, q[1], v2);
        if q[1].len() == broker_name.len() {
            let y3 = object_name + "::"@ + typename;
            let v3 = q[3] + "::"@ + q[4];
            assert(y2 =~= class_name + "/"@ + y3);
            assert(v2 =~= q[2] + "/"@ + v3);
            lemma_split_not_before(class_name, "/"@, y3, q[2], v3);
            if q[2].len() == class_name.len() {
                lemma_split_not_before(object_name, "::"@, typename, q[3], q[4]);
                if q[3].len() == object_name.len() {
                    assert(q =~= built);
                }
            }
        }
    }
}

/// Building an identifier and splitting it as the identifier pattern's lazy
/// groups do gives back the parts, where the broker type and the object name
/// hold no `:` and the broker and class names no `/` (and every part is one
/// or more characters other than a line feed).
pub proof fn law_build_then_parse(
    broker_type_name: Seq<char>,
    broker_name: Seq<char>,
    class_name: Seq<char>,
    typename: Seq<char>,
    object_name: Seq<char>,
    parts: Seq<Seq<char>>,
)
    requires
        lazily_splittable(broker_type_name, broker_name, class_name, typename, object_name),
    ensures
        identifier_matches(spec_identifier(broker_type_name, broker_name, class_name, typename, object_name)),
        identifier_preferred_split(spec_identifier(broker_type_name, broker_name, class_name, typename, object_name), parts)
            ==> parts == seq![broker_type_name, broker_name, class_name, object_name, typename],
{
    let built = seq![broker_type_name, broker_name, class_name, object_name, typename];
    let text = spec_identifier(broker_type_name, broker_name, class_name, typename, object_name);
    assert(identifier_split(text, built));
    if identifier_preferred_split(text, parts) {
        assert(shorter_or_same_split(parts, built));
        lemma_built_split_first(broker_type_name, broker_name, class_name, typename, object_name, parts);
    }
}

} // verus!

//! Scene descriptions: which lines of a scene file describe an entity.
//!
//! A scene file is read line by line. A line describes an entity if it
//! names one and is not commented out.

use vstd::prelude::*;

verus! {

pub struct SceneLoader {
}

pub const OPEN_LIST: u8 = 91;

pub const CLOSE_LIST: u8 = 93;

pub const BLANK: u8 = 32;

pub const OPEN_ARGUMENTS: u8 = 40;

pub const CLOSE_ARGUMENTS: u8 = 41;

pub const COMMA: u8 = 44;

/// The byte strings behind a list of byte vectors.
pub open spec fn texts(items: Seq<Vec<u8>>) -> Seq<Seq<u8>> {
    items.map_values(|item: Vec<u8>| item@)
}

/// The parts of `s` from `start` on, where `i` is how far the part that
/// begins at `start` has been read: a part ends before each `separator`.
pub open spec fn split_from(s: Seq<u8>, separator: u8, start: int, i: int) -> Seq<Seq<u8>>
    decreases s.len() - i,
{
    if i >= s.len() {
        seq![s.subrange(start, s.len() as int)]
    } else if s[i] == separator {
        seq![s.subrange(start, i)] + split_from(s, separator, i + 1, i + 1)
    } else {
        split_from(s, separator, start, i + 1)
    }
}

/// The parts that `separator` cuts `s` into. There is one part more than
/// there are separators, and parts may be empty.
pub open spec fn split(s: Seq<u8>, separator: u8) -> Seq<Seq<u8>> {
    split_from(s, separator, 0, 0)
}

/// The parts put together again, with `separator` between them.
pub open spec fn join(parts: Seq<Seq<u8>>, separator: u8) -> Seq<u8>
    decreases parts.len(),
{
    if parts.len() == 0 {
        Seq::empty()
    } else if parts.len() == 1 {
        parts[0]
    } else {
        parts[0] + seq![separator] + join(parts.drop_first(), separator)
    }
}

/// What a component of a scene description is.
#[derive(Clone, Copy, Debug, PartialEq, Eq)]
pub enum ComponentKind {
    Name,
    Position,
    Rotation,
    Scale,
    Material,
    Physics,
}

/// Why a line is no entity description.
#[derive(Clone, Copy, Debug, PartialEq, Eq)]
pub enum SceneError {
    /// The line has no `[`.
    NoComponentList,
    /// An item of the list is of no known kind.
    UnknownComponent,
    /// An item lacks the arguments that its kind takes.
    MissingArguments,
}

/// One item of an entity line: its kind and the texts of its arguments.
/// A name has one argument, the name. Position, rotation and scale have
/// the numbers between the brackets. A material has the path of its texture
/// and then the numbers of its colour. Physics has none.
#[derive(Debug, PartialEq, Eq)]
pub struct ComponentDef {
    pub kind: ComponentKind,
    pub arguments: Vec<Vec<u8>>,
}

pub struct ComponentDefView {
    pub kind: ComponentKind,
    pub arguments: Seq<Seq<u8>>,
}

impl View for ComponentDef {
    type V = ComponentDefView;

    open spec fn view(&self) -> ComponentDefView {
        ComponentDefView { kind: self.kind, arguments: texts(self.arguments@) }
    }
}

pub open spec fn definitions(components: Seq<ComponentDef>) -> Seq<ComponentDefView> {
    components.map_values(|c: ComponentDef| c@)
}

pub open spec fn name_word() -> Seq<u8> {
    seq![110u8, 97u8, 109u8, 101u8]
}

pub open spec fn position_word() -> Seq<u8> {
    seq![112u8, 111u8, 115u8]
}

pub open spec fn rotation_word() -> Seq<u8> {
    seq![114u8, 111u8, 116u8]
}

pub open spec fn scale_word() -> Seq<u8> {
    seq![115u8, 99u8, 97u8, 108u8, 101u8]
}

pub open spec fn material_word() -> Seq<u8> {
    seq![109u8, 97u8, 116u8, 101u8, 114u8, 105u8, 97u8, 108u8]
}

pub open spec fn physics_word() -> Seq<u8> {
    seq![112u8, 104u8, 121u8, 115u8, 105u8, 99u8, 115u8]
}

/// The kind that a word names.
pub open spec fn kind_of(word: Seq<u8>) -> Option<ComponentKind> {
    if word == name_word() {
        Some(ComponentKind::Name)
    } else if word == position_word() {
        Some(ComponentKind::Position)
    } else if word == rotation_word() {
        Some(ComponentKind::Rotation)
    } else if word == scale_word() {
        Some(ComponentKind::Scale)
    } else if word == material_word() {
        Some(ComponentKind::Material)
    } else if word == physics_word() {
        Some(ComponentKind::Physics)
    } else {
        None
    }
}

/// The text up to the closing bracket.
pub open spec fn enclosed(field: Seq<u8>) -> Seq<u8> {
    split(field, CLOSE_ARGUMENTS)[0]
}

/// What an item of a component list says. The item is cut at each opening
/// bracket: the first part names the kind, the later parts hold the
/// arguments.
pub open spec fn parse_token(token: Seq<u8>) -> Result<ComponentDefView, SceneError> {
    let fields = split(token, OPEN_ARGUMENTS);
    match kind_of(fields[0]) {
        None => Err(SceneError::UnknownComponent),
        Some(ComponentKind::Physics) => Ok(
            ComponentDefView { kind: ComponentKind::Physics, arguments: Seq::empty() },
        ),
        Some(ComponentKind::Name) => if fields.len() < 2 {
            Err(SceneError::MissingArguments)
        } else {
            Ok(ComponentDefView { kind: ComponentKind::Name, arguments: seq![enclosed(fields[1])] })
        },
        Some(ComponentKind::Material) => if fields.len() < 3 {
            Err(SceneError::MissingArguments)
        } else {
            Ok(
                ComponentDefView {
                    kind: ComponentKind::Material,
                    arguments: seq![split(fields[1], COMMA)[0]] + split(enclosed(fields[2]), COMMA),
                },
            )
        },
        Some(kind) => if fields.len() < 2 {
            Err(SceneError::MissingArguments)
        } else {
            Ok(ComponentDefView { kind, arguments: split(enclosed(fields[1]), COMMA) })
        },
    }
}

/// What the first `n` items say, or what is wrong with the first of them
/// that is wrong.
pub open spec fn parse_tokens(tokens: Seq<Seq<u8>>, n: int) -> Result<Seq<ComponentDefView>, SceneError>
    decreases n,
{
    if n <= 0 {
        Ok(Seq::empty())
    } else {
        match parse_tokens(tokens, n - 1) {
            Err(e) => Err(e),
            Ok(done) => match parse_token(tokens[n - 1]) {
                Err(e) => Err(e),
                Ok(component) => Ok(done.push(component)),
            },
        }
    }
}

/// What an entity line says.
pub open spec fn parse_entity_spec(def: Seq<u8>) -> Result<Seq<ComponentDefView>, SceneError> {
    let parts = split(def, OPEN_LIST);
    if parts.len() < 2 {
        Err(SceneError::NoComponentList)
    } else {
        let tokens = split(split(parts[1], CLOSE_LIST)[0], BLANK);
        parse_tokens(tokens, tokens.len() as int)
    }
}

/// A split yields at least one part.
pub proof fn lemma_split_has_a_part(s: Seq<u8>, separator: u8)
    ensures
        split(s, separator).len() >= 1,
{
    lemma_split_from_has_a_part(s, separator, 0, 0);
}

proof fn lemma_split_from_has_a_part(s: Seq<u8>, separator: u8, start: int, i: int)
    ensures
        split_from(s, separator, start, i).len() >= 1,
    decreases s.len() - i,
{
    if i < s.len() && s[i] != separator {
        lemma_split_from_has_a_part(s, separator, start, i + 1);
    }
}

/// Splitting loses nothing and leaves no separator: the parts, put together
/// again with the separator between them, are the text that was split, and
/// no part holds the separator.
pub proof fn lemma_split_joins_back(s: Seq<u8>, separator: u8)
    ensures
        join(split(s, separator), separator) == s,
        forall|k: int|
            0 <= k < split(s, separator).len() ==> !(#[trigger] split(s, separator)[k]).contains(separator),
{
    lemma_split_from_joins_back(s, separator, 0, 0);
    assert(s.subrange(0, s.len() as int) =~= s);
}

proof fn lemma_split_from_joins_back(s: Seq<u8>, separator: u8, start: int, i: int)
    requires
        0 <= start <= i <= s.len(),
        forall|j: int| start <= j < i ==> s[j] != separator,
    ensures
        join(split_from(s, separator, start, i), separator) == s.subrange(start, s.len() as int),
        forall|k: int|
            0 <= k < split_from(s, separator, start, i).len() ==> !(#[trigger] split_from(
                s,
                separator,
                start,
                i,
            )[k]).contains(separator),
    decreases s.len() - i,
{
    let parts = split_from(s, separator, start, i);
    if i >= s.len() {
        assert(parts[0] == s.subrange(start, s.len() as int));
        assert(!parts[0].contains(separator)) by {
            if parts[0].contains(separator) {
                let j = choose|j: int| 0 <= j < parts[0].len() && parts[0][j] == separator;
                assert(s[start + j] == separator);
            }
        }
    } else if s[i] == separator {
        lemma_split_from_joins_back(s, separator, i + 1, i + 1);
        lemma_split_from_has_a_part(s, separator, i + 1, i + 1);
        let rest = split_from(s, separator, i + 1, i + 1);
        let first = s.subrange(start, i);
        assert(parts == seq![first] + rest);
        assert(parts.drop_first() =~= rest);
        assert(parts[0] == first);
        assert(join(parts, separator) == first + seq![separator] + join(rest, separator));
        assert(first + seq![separator] + s.subrange(i + 1, s.len() as int) =~= s.subrange(start, s.len() as int));
        assert(!first.contains(separator)) by {
            if first.contains(separator) {
                let j = choose|j: int| 0 <= j < first.len() && first[j] == separator;
                assert(s[start + j] == separator);
            }
        }
        assert forall|k: int| 0 <= k < parts.len() implies !(#[trigger] parts[k]).contains(separator) by {
            if k > 0 {
                assert(parts[k] == rest[k - 1]);
            }
        }
    } else {
        lemma_split_from_joins_back(s, separator, start, i + 1);
    }
}

proof fn lemma_error_stays(tokens: Seq<Seq<u8>>, k: int, n: int)
    requires
        0 <= k <= n,
        parse_tokens(tokens, k) is Err,
    ensures
        parse_tokens(tokens, n) == parse_tokens(tokens, k),
    decreases n - k,
{
    if k < n {
        lemma_error_stays(tokens, k, n - 1);
    }
}

/// The parts that `separator` cuts `s` into.
pub fn split_bytes(s: &[u8], separator: u8) -> (parts: Vec<Vec<u8>>)
    ensures
        texts(parts@) == split(s@, separator),
        parts@.len() >= 1,
{
    let mut parts: Vec<Vec<u8>> = Vec::new();
    let mut current: Vec<u8> = Vec::new();
    let ghost mut start: int = 0;
    let mut i: usize = 0;
    while i < s.len()
        invariant
            0 <= start <= i <= s@.len(),
            current@ == s@.subrange(start, i as int),
            split(s@, separator) == texts(parts@) + split_from(s@, separator, start, i as int),
        decreases s@.len() - i,
    {
        let ghost before = texts(parts@);
        if s[i] == separator {
            parts.push(current);
            current = Vec::new();
            proof {
                assert(texts(parts@) =~= before.push(s@.subrange(start, i as int)));
                assert(before + (seq![s@.subrange(start, i as int)] + split_from(
                    s@,
                    separator,
                    i + 1,
                    i + 1,
                )) =~= texts(parts@) + split_from(s@, separator, i + 1, i + 1));
                start = i + 1;
            }
            assert(current@ =~= s@.subrange(start, i + 1));
        } else {
            current.push(s[i]);
            assert(current@ =~= s@.subrange(start, i + 1));
        }
        i += 1;
    }
    let ghost before = texts(parts@);
    parts.push(current);
    proof {
        assert(texts(parts@) =~= before.push(s@.subrange(start, s@.len() as int)));
        assert(texts(parts@) =~= before + split_from(s@, separator, start, s@.len() as int));
    }
    parts
}

fn same_bytes(a: &[u8], b: &[u8]) -> (same: bool)
    ensures
        same == (a@ == b@),
{
    if a.len() != b.len() {
        return false;
    }
    let mut i: usize = 0;
    while i < a.len()
        invariant
            i <= a@.len(),
            a@.len() == b@.len(),
            forall|j: int| 0 <= j < i ==> a@[j] == b@[j],
        decreases a@.len() - i,
    {
        if a[i] != b[i] {
            return false;
        }
        i += 1;
    }
    assert(a@ =~= b@);
    true
}

/// The kind that a word names.
pub fn read_kind(word: &[u8]) -> (kind: Option<ComponentKind>)
    ensures
        kind == kind_of(word@),
{
    let name: [u8; 4] = [110, 97, 109, 101];
    let position: [u8; 3] = [112, 111, 115];
    let rotation: [u8; 3] = [114, 111, 116];
    let scale: [u8; 5] = [115, 99, 97, 108, 101];
    let material: [u8; 8] = [109, 97, 116, 101, 114, 105, 97, 108];
    let physics: [u8; 7] = [112, 104, 121, 115, 105, 99, 115];
    assert(name@ =~= name_word());
    assert(position@ =~= position_word());
    assert(rotation@ =~= rotation_word());
    assert(scale@ =~= scale_word());
    assert(material@ =~= material_word());
    assert(physics@ =~= physics_word());
    if same_bytes(word, name.as_slice()) {
        Some(ComponentKind::Name)
    } else if same_bytes(word, position.as_slice()) {
        Some(ComponentKind::Position)
    } else if same_bytes(word, rotation.as_slice()) {
        Some(ComponentKind::Rotation)
    } else if same_bytes(word, scale.as_slice()) {
        Some(ComponentKind::Scale)
    } else if same_bytes(word, material.as_slice()) {
        Some(ComponentKind::Material)
    } else if same_bytes(word, physics.as_slice()) {
        Some(ComponentKind::Physics)
    } else {
        None
    }
}

fn first_part(s: &[u8], separator: u8) -> (part: Vec<u8>)
    ensures
        part@ == split(s@, separator)[0],
{
    let mut parts = split_bytes(s, separator);
    let ghost all = texts(parts@);
    let mut first: Vec<u8> = Vec::new();
    std::mem::swap(&mut first, &mut parts[0]);
    assert(first@ == all[0]);
    first
}

/// What an item of a component list says.
pub fn parse_component(token: &[u8]) -> (r: Result<ComponentDef, SceneError>)
    ensures
        match r {
            Ok(component) => parse_token(token@) == Ok::<ComponentDefView, SceneError>(component@),
            Err(e) => parse_token(token@) == Err::<ComponentDefView, SceneError>(e),
        },
{
    let fields = split_bytes(token, OPEN_ARGUMENTS);
    let kind = match read_kind(fields[0].as_slice()) {
        Some(kind) => kind,
        None => {
            return Err(SceneError::UnknownComponent);
        },
    };
    match kind {
        ComponentKind::Physics => {
            let arguments: Vec<Vec<u8>> = Vec::new();
            let component = ComponentDef { kind, arguments };
            assert(component@.arguments =~= Seq::<Seq<u8>>::empty());
            Ok(component)
        },
        ComponentKind::Name => {
            if fields.len() < 2 {
                return Err(SceneError::MissingArguments);
            }
            let mut arguments: Vec<Vec<u8>> = Vec::new();
            arguments.push(first_part(fields[1].as_slice(), CLOSE_ARGUMENTS));
            let component = ComponentDef { kind, arguments };
            assert(component@.arguments =~= seq![enclosed(fields@[1]@)]);
            Ok(component)
        },
        ComponentKind::Material => {
            if fields.len() < 3 {
                return Err(SceneError::MissingArguments);
            }
            let texture = first_part(fields[1].as_slice(), COMMA);
            let inner = first_part(fields[2].as_slice(), CLOSE_ARGUMENTS);
            let mut numbers = split_bytes(inner.as_slice(), COMMA);
            let ghost number_texts = texts(numbers@);
            let mut arguments: Vec<Vec<u8>> = Vec::new();
            arguments.push(texture);
            arguments.append(&mut numbers);
            let component = ComponentDef { kind, arguments };
            assert(component@.arguments =~= seq![split(fields@[1]@, COMMA)[0]] + number_texts);
            Ok(component)
        },
        _ => {
            if fields.len() < 2 {
                return Err(SceneError::MissingArguments);
            }
            let inner = first_part(fields[1].as_slice(), CLOSE_ARGUMENTS);
            let arguments = split_bytes(inner.as_slice(), COMMA);
            Ok(ComponentDef { kind, arguments })
        },
    }
}

/// Whether `needle` stands in `haystack` at position `i`.
pub open spec fn occurs_at(haystack: Seq<u8>, needle: Seq<u8>, i: int) -> bool {
    0 <= i && i + needle.len() <= haystack.len() && haystack.subrange(i, i + needle.len()) == needle
}

/// Whether `needle` stands somewhere in `haystack`.
pub open spec fn occurs(haystack: Seq<u8>, needle: Seq<u8>) -> bool {
    exists|i: int| occurs_at(haystack, needle, i)
}

/// The word that marks an entity line.
pub open spec fn entity_word() -> Seq<u8> {
    seq![101u8, 110u8, 116u8, 105u8, 116u8, 121u8]
}

/// The mark of a comment: two slashes.
pub open spec fn comment_mark() -> Seq<u8> {
    seq![47u8, 47u8]
}

/// Whether a line describes an entity: it has the word `entity` in it and no
/// comment mark.
pub open spec fn describes_entity(line: Seq<u8>) -> bool {
    line.len() > 0 && occurs(line, entity_word()) && !occurs(line, comment_mark())
}

/// The lines among the first `n` that describe an entity, in their order.
pub open spec fn entity_lines_of(lines: Seq<Seq<u8>>, n: int) -> Seq<Seq<u8>>
    decreases n,
{
    if n <= 0 {
        Seq::empty()
    } else if describes_entity(lines[n - 1]) {
        entity_lines_of(lines, n - 1).push(lines[n - 1])
    } else {
        entity_lines_of(lines, n - 1)
    }
}

fn matches_at(haystack: &[u8], needle: &[u8], i: usize) -> (b: bool)
    requires
        i + needle@.len() <= haystack@.len(),
    ensures
        b == occurs_at(haystack@, needle@, i as int),
{
    let length = haystack.len();
    let mut j: usize = 0;
    while j < needle.len()
        invariant
            j <= needle@.len(),
            length == haystack@.len(),
            i + needle@.len() <= haystack@.len(),
            forall|t: int| 0 <= t < j ==> haystack@[i + t] == needle@[t],
        decreases needle@.len() - j,
    {
        if haystack[i + j] != needle[j] {
            assert(haystack@.subrange(i as int, i + needle@.len())[j as int] == haystack@[i + j]);
            return false;
        }
        j += 1;
    }
    assert(haystack@.subrange(i as int, i + needle@.len()) =~= needle@);
    true
}

/// Whether `needle` stands somewhere in `haystack`.
pub fn contains_bytes(haystack: &[u8], needle: &[u8]) -> (b: bool)
    ensures
        b == occurs(haystack@, needle@),
{
    if needle.len() > haystack.len() {
        return false;
    }
    let last = haystack.len() - needle.len();
    let mut i: usize = 0;
    loop
        invariant
            last == haystack@.len() - needle@.len(),
            i <= last,
            forall|t: int| 0 <= t < i ==> !occurs_at(haystack@, needle@, t),
        decreases last - i,
    {
        if matches_at(haystack, needle, i) {
            return true;
        }
        if i == last {
            return false;
        }
        i += 1;
    }
}

impl SceneLoader {
    /// Whether a line of a scene file describes an entity.
    pub fn is_entity_line(line: &[u8]) -> (b: bool)
        ensures
            b == describes_entity(line@),
    {
        let word: [u8; 6] = [101, 110, 116, 105, 116, 121];
        let mark: [u8; 2] = [47, 47];
        assert(word@ =~= entity_word());
        assert(mark@ =~= comment_mark());
        line.len() > 0 && contains_bytes(line, word.as_slice()) && !contains_bytes(line, mark.as_slice())
    }

    /// The lines that describe an entity, in the order they stand in the
    /// file.
    pub fn load_component(lines: &Vec<Vec<u8>>) -> (kept: Vec<Vec<u8>>)
        ensures
            texts(kept@) == entity_lines_of(texts(lines@), lines@.len() as int),
    {
        let ghost all = texts(lines@);
        let mut kept: Vec<Vec<u8>> = Vec::new();
        let mut i: usize = 0;
        while i < lines.len()
            invariant
                i <= lines@.len(),
                all == texts(lines@),
                texts(kept@) == entity_lines_of(all, i as int),
            decreases lines@.len() - i,
        {
            let ghost before = texts(kept@);
            if Self::is_entity_line(lines[i].as_slice()) {
                let line = lines[i].clone();
                kept.push(line);
                assert(texts(kept@) =~= before.push(all[i as int]));
            }
            i += 1;
        }
        kept
    }

    /// The components that an entity line lists, in the order of the line.
    /// The list stands between the first `[` and the `]` that follows it,
    /// its items set apart by single blanks.
    pub fn parse_entity(def: &[u8]) -> (r: Result<Vec<ComponentDef>, SceneError>)
        ensures
            match r {
                Ok(components) => parse_entity_spec(def@) == Ok::<Seq<ComponentDefView>, SceneError>(
                    definitions(components@),
                ),
                Err(e) => parse_entity_spec(def@) == Err::<Seq<ComponentDefView>, SceneError>(e),
            },
    {
        let parts = split_bytes(def, OPEN_LIST);
        if parts.len() < 2 {
            return Err(SceneError::NoComponentList);
        }
        let inner = split_bytes(parts[1].as_slice(), CLOSE_LIST);
        proof {
            lemma_split_has_a_part(parts@[1]@, CLOSE_LIST);
        }
        let tokens = split_bytes(inner[0].as_slice(), BLANK);
        let mut components: Vec<ComponentDef> = Vec::new();
        proof {
            assert(texts(parts@)[1] == parts@[1]@);
            assert(texts(inner@)[0] == inner@[0]@);
            assert(definitions(components@) =~= Seq::<ComponentDefView>::empty());
        }
        let mut i: usize = 0;
        while i < tokens.len()
            invariant
                i <= tokens@.len(),
                parse_entity_spec(def@) == parse_tokens(texts(tokens@), tokens@.len() as int),
                parse_tokens(texts(tokens@), i as int) == Ok::<Seq<ComponentDefView>, SceneError>(
                    definitions(components@),
                ),
            decreases tokens@.len() - i,
        {
            let ghost before = definitions(components@);
            assert(texts(tokens@)[i as int] == tokens@[i as int]@);
            match parse_component(tokens[i].as_slice()) {
                Ok(component) => {
                    components.push(component);
                    assert(definitions(components@) =~= before.push(component@));
                },
                Err(e) => {
                    proof {
                        assert(parse_tokens(texts(tokens@), i as int + 1) == Err::<
                            Seq<ComponentDefView>,
                            SceneError,
                        >(e));
                        lemma_error_stays(texts(tokens@), i as int + 1, tokens@.len() as int);
                    }
                    return Err(e);
                },
            }
            i += 1;
        }
        Ok(components)
    }
}

} // verus!

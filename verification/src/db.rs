//! The records kept of dictation sessions and of the entries dictated in
//! them, as the store reads and writes them, and the counting of text.

use std::str::FromStr;
use vstd::prelude::*;
use vstd::string::StringExecFns;
use vstd::utf8::encode_utf8;

verus! {

/// White space as `char::is_whitespace` knows it: the code points that carry
/// the Unicode property `White_Space`.
pub open spec fn is_whitespace(c: char) -> bool {
    let v = c as u32;
    ||| 0x09 <= v <= 0x0D
    ||| v == 0x20
    ||| v == 0x85
    ||| v == 0xA0
    ||| v == 0x1680
    ||| 0x2000 <= v <= 0x200A
    ||| v == 0x2028
    ||| v == 0x2029
    ||| v == 0x202F
    ||| v == 0x205F
    ||| v == 0x3000
}

/// A word starts at `i`: the character there is no white space, and the one
/// before it, if there is one, is.
pub open spec fn word_starts_at(text: Seq<char>, i: int) -> bool {
    &&& 0 <= i < text.len()
    &&& !is_whitespace(text[i])
    &&& (i == 0 || is_whitespace(text[i - 1]))
}

/// The number of words in a text: of its longest runs of characters that are
/// no white space.
pub open spec fn word_count(text: Seq<char>) -> nat
    decreases text.len(),
{
    if text.len() == 0 {
        0
    } else if word_starts_at(text, text.len() - 1) {
        word_count(text.drop_last()) + 1
    } else {
        word_count(text.drop_last())
    }
}

/// Every character takes at least one byte.
proof fn lemma_chars_fit_bytes(chars: Seq<char>)
    ensures
        chars.len() <= encode_utf8(chars).len(),
    decreases chars.len(),
{
    if chars.len() > 0 {
        lemma_chars_fit_bytes(chars.drop_first());
    }
}

/// A text has no more words than characters.
proof fn lemma_words_fit_chars(text: Seq<char>)
    ensures
        word_count(text) <= text.len(),
    decreases text.len(),
{
    if text.len() > 0 {
        lemma_words_fit_chars(text.drop_last());
    }
}

/// Tells white space from the code point.
fn whitespace(c: char) -> (white: bool)
    ensures
        white == is_whitespace(c),
{
    let v: u32 = c as u32;
    (0x09 <= v && v <= 0x0D) || v == 0x20 || v == 0x85 || v == 0xA0 || v == 0x1680 || (0x2000 <= v
        && v <= 0x200A) || v == 0x2028 || v == 0x2029 || v == 0x202F || v == 0x205F || v == 0x3000
}

/// Counts the words of a text: what is left when it is split at white space.
/// The count is handed back as a signed number, cut to its width; it is the
/// number of words wherever that fits.
pub fn count_words(text: &str) -> (n: i64)
    ensures
        n == word_count(text@) as i64,
        word_count(text@) <= i64::MAX ==> n == word_count(text@),
{
    let bytes = text.as_bytes();
    let limit = bytes.len();
    proof {
        lemma_chars_fit_bytes(text@);
    }
    let mut count: usize = 0;
    let mut after_space = true;
    let chars = text.chars();
    for c in it: chars
        invariant
            it.seq() == text@,
            text@.len() <= limit,
            count == word_count(text@.take(it.index() as int)),
            after_space <==> (it.index() == 0 || is_whitespace(text@[it.index() - 1])),
    {
        proof {
            let i = it.index() as int;
            assert(text@.take(i + 1).drop_last() =~= text@.take(i));
            lemma_words_fit_chars(text@.take(i));
        }
        let white = whitespace(c);
        if !white && after_space {
            count = count + 1;
        }
        after_space = white;
    }
    proof {
        assert(text@.take(text@.len() as int) =~= text@);
    }
    count as i64
}

/// Counts the characters of a text, not its bytes. The count is handed back
/// as a signed number, cut to its width; it is the number of characters
/// wherever that fits.
pub fn count_chars(text: &str) -> (n: i64)
    ensures
        n == text@.len() as i64,
        text@.len() <= i64::MAX ==> n == text@.len(),
{
    text.unicode_len() as i64
}

/// How a session was driven, and so where an entry came from.
#[derive(Debug, Clone, Copy, PartialEq, Eq, Structural)]
pub enum SessionMode {
    Hold,
    Toggle,
    Record,
}

impl Default for SessionMode {
    fn default() -> (mode: SessionMode)
        ensures
            mode == SessionMode::Hold,
    {
        SessionMode::Hold
    }
}

/// What a parse answers to a text that names no mode: a fixed opening, then
/// the text itself.
pub open spec fn unknown_mode_message(text: Seq<char>) -> Seq<char> {
    "Unknown session mode: "@ + text
}

impl SessionMode {
    /// The name under which the mode is stored.
    pub open spec fn name(self) -> Seq<char> {
        match self {
            SessionMode::Hold => "hold"@,
            SessionMode::Toggle => "toggle"@,
            SessionMode::Record => "record"@,
        }
    }

    /// The mode that a text names, if it names one.
    pub open spec fn named(text: Seq<char>) -> Option<SessionMode> {
        if text == SessionMode::Hold.name() {
            Some(SessionMode::Hold)
        } else if text == SessionMode::Toggle.name() {
            Some(SessionMode::Toggle)
        } else if text == SessionMode::Record.name() {
            Some(SessionMode::Record)
        } else {
            None
        }
    }

    /// The mode that a stored text stands for: the one it names, and the
    /// default where it names none.
    pub open spec fn stored_as(text: Seq<char>) -> SessionMode {
        match SessionMode::named(text) {
            Some(mode) => mode,
            None => SessionMode::Hold,
        }
    }

    /// The name under which the mode is stored.
    pub fn as_str(&self) -> (name: &'static str)
        ensures
            name@ == self.name(),
    {
        match self {
            SessionMode::Hold => "hold",
            SessionMode::Toggle => "toggle",
            SessionMode::Record => "record",
        }
    }

    /// The name under which the mode is stored, as an owned text.
    pub fn to_string(&self) -> (name: String)
        ensures
            name@ == self.name(),
    {
        self.as_str().to_owned()
    }

    /// Reads a mode from its name. Any other text is answered with
    /// [`unknown_mode_message`].
    pub fn parse(text: &str) -> (parsed: Result<SessionMode, String>)
        ensures
            SessionMode::named(text@) matches Some(mode) ==> parsed == Ok::<SessionMode, String>(
                mode,
            ),
            SessionMode::named(text@) is None ==> (parsed matches Err(message) && message@
                == unknown_mode_message(text@)),
    {
        if same_text(text, "hold") {
            Ok(SessionMode::Hold)
        } else if same_text(text, "toggle") {
            Ok(SessionMode::Toggle)
        } else if same_text(text, "record") {
            Ok(SessionMode::Record)
        } else {
            Err("Unknown session mode: ".to_owned().concat(text))
        }
    }

    /// Reads a mode as the store holds it: a text that names no mode stands
    /// for the default.
    pub fn from_stored(text: &str) -> (mode: SessionMode)
        ensures
            mode == SessionMode::stored_as(text@),
    {
        match SessionMode::parse(text) {
            Ok(mode) => mode,
            Err(_) => SessionMode::default(),
        }
    }
}

impl FromStr for SessionMode {
    type Err = String;

    fn from_str(s: &str) -> (parsed: Result<SessionMode, String>)
        ensures
            SessionMode::named(s@) matches Some(mode) ==> parsed == Ok::<SessionMode, String>(mode),
            SessionMode::named(s@) is None ==> (parsed matches Err(message) && message@
                == unknown_mode_message(s@)),
    {
        SessionMode::parse(s)
    }
}

/// How the store writes a flag: one for set, nought for clear.
pub open spec fn flag_column(flag: bool) -> int {
    if flag {
        1
    } else {
        0
    }
}

/// How the store writes a flag.
pub fn flag_to_column(flag: bool) -> (column: i32)
    ensures
        column == flag_column(flag),
{
    if flag {
        1
    } else {
        0
    }
}

/// How the store reads a flag: set is whatever is not nought.
pub fn column_to_flag(column: i32) -> (flag: bool)
    ensures
        flag == (column != 0),
        forall|written: bool| column == flag_column(written) ==> flag == written,
{
    column != 0
}

/// A dictation session as the store holds it.
#[derive(Debug, Clone)]
pub struct Session {
    pub id: String,
    pub mode: SessionMode,
    pub started_at: i64,
    pub ended_at: Option<i64>,
    pub language: Option<String>,
    pub model_profile: String,
    pub translated: bool,
    pub app_name: Option<String>,
    pub chars_count: i64,
    pub words_count: i64,
}

/// What is known of a session when it starts.
#[derive(Debug, Clone)]
pub struct SessionCreate {
    pub id: String,
    pub mode: SessionMode,
    pub started_at: i64,
    pub language: Option<String>,
    pub model_profile: String,
    pub translated: bool,
    pub app_name: Option<String>,
}

/// One piece of dictated text as the store holds it.
#[derive(Debug, Clone)]
pub struct Entry {
    pub id: String,
    pub session_id: String,
    pub started_at: i64,
    pub ended_at: i64,
    pub text: String,
    pub source: SessionMode,
    pub typed: bool,
}

/// What is handed in to store an entry.
#[derive(Debug, Clone)]
pub struct EntryCreate {
    pub id: String,
    pub session_id: String,
    pub started_at: i64,
    pub ended_at: i64,
    pub text: String,
    pub source: SessionMode,
    pub typed: bool,
}

impl Session {
    /// The session that the store holds once `create` is written: not ended
    /// yet, and nothing counted.
    pub fn started(create: SessionCreate) -> (session: Session)
        ensures
            session == (Session {
                id: create.id,
                mode: create.mode,
                started_at: create.started_at,
                ended_at: None,
                language: create.language,
                model_profile: create.model_profile,
                translated: create.translated,
                app_name: create.app_name,
                chars_count: 0,
                words_count: 0,
            }),
    {
        Session {
            id: create.id,
            mode: create.mode,
            started_at: create.started_at,
            ended_at: None,
            language: create.language,
            model_profile: create.model_profile,
            translated: create.translated,
            app_name: create.app_name,
            chars_count: 0,
            words_count: 0,
        }
    }

    /// The session that a row of the store stands for. The columns come in
    /// the order of the fields; the mode is read by
    /// [`SessionMode::from_stored`] and the flag by [`column_to_flag`].
    pub fn from_row(
        id: String,
        mode: &str,
        started_at: i64,
        ended_at: Option<i64>,
        language: Option<String>,
        model_profile: String,
        translated: i32,
        app_name: Option<String>,
        chars_count: i64,
        words_count: i64,
    ) -> (session: Session)
        ensures
            session == (Session {
                id,
                mode: SessionMode::stored_as(mode@),
                started_at,
                ended_at,
                language,
                model_profile,
                translated: translated != 0,
                app_name,
                chars_count,
                words_count,
            }),
    {
        Session {
            id,
            mode: SessionMode::from_stored(mode),
            started_at,
            ended_at,
            language,
            model_profile,
            translated: column_to_flag(translated),
            app_name,
            chars_count,
            words_count,
        }
    }
}

impl Entry {
    /// The entry that the store holds once `create` is written.
    pub fn stored(create: EntryCreate) -> (entry: Entry)
        ensures
            entry == (Entry {
                id: create.id,
                session_id: create.session_id,
                started_at: create.started_at,
                ended_at: create.ended_at,
                text: create.text,
                source: create.source,
                typed: create.typed,
            }),
    {
        Entry {
            id: create.id,
            session_id: create.session_id,
            started_at: create.started_at,
            ended_at: create.ended_at,
            text: create.text,
            source: create.source,
            typed: create.typed,
        }
    }

    /// The entry that a row of the store stands for. The columns come in the
    /// order of the fields; the source is read by
    /// [`SessionMode::from_stored`] and the flag by [`column_to_flag`].
    pub fn from_row(
        id: String,
        session_id: String,
        started_at: i64,
        ended_at: i64,
        text: String,
        source: &str,
        typed: i32,
    ) -> (entry: Entry)
        ensures
            entry == (Entry {
                id,
                session_id,
                started_at,
                ended_at,
                text,
                source: SessionMode::stored_as(source@),
                typed: typed != 0,
            }),
    {
        Entry {
            id,
            session_id,
            started_at,
            ended_at,
            text,
            source: SessionMode::from_stored(source),
            typed: column_to_flag(typed),
        }
    }
}

/// One column of a stored session set to a new value.
#[derive(Debug, Clone, Copy, PartialEq, Eq, Structural)]
pub enum SessionUpdate {
    EndedAt(i64),
    CharsCount(i64),
    WordsCount(i64),
}

/// One column of a stored entry set to a new value.
#[derive(Debug, Clone, PartialEq, Eq)]
pub enum EntryUpdate {
    Text(String),
    Typed(bool),
}

/// The writes that an update of a session asks for: one for each value that
/// is given, the end first, then the characters, then the words.
pub open spec fn session_update_plan(
    ended_at: Option<i64>,
    chars_count: Option<i64>,
    words_count: Option<i64>,
) -> Seq<SessionUpdate> {
    (match ended_at {
        Some(at) => seq![SessionUpdate::EndedAt(at)],
        None => seq![],
    }) + (match chars_count {
        Some(count) => seq![SessionUpdate::CharsCount(count)],
        None => seq![],
    }) + (match words_count {
        Some(count) => seq![SessionUpdate::WordsCount(count)],
        None => seq![],
    })
}

/// The writes that an update of an entry asks for: one for each value that
/// is given, the text first, then the flag.
pub open spec fn entry_update_plan(text: Option<String>, typed: Option<bool>) -> Seq<EntryUpdate> {
    (match text {
        Some(text) => seq![EntryUpdate::Text(text)],
        None => seq![],
    }) + (match typed {
        Some(flag) => seq![EntryUpdate::Typed(flag)],
        None => seq![],
    })
}

/// Plans the update of a session: which columns are written, and in which
/// order. Nothing given, nothing written.
pub fn session_updates(
    ended_at: Option<i64>,
    chars_count: Option<i64>,
    words_count: Option<i64>,
) -> (updates: Vec<SessionUpdate>)
    ensures
        updates@ == session_update_plan(ended_at, chars_count, words_count),
{
    let mut updates: Vec<SessionUpdate> = Vec::new();
    if let Some(at) = ended_at {
        updates.push(SessionUpdate::EndedAt(at));
    }
    if let Some(count) = chars_count {
        updates.push(SessionUpdate::CharsCount(count));
    }
    if let Some(count) = words_count {
        updates.push(SessionUpdate::WordsCount(count));
    }
    updates
}

/// Plans the update of an entry: which columns are written, and in which
/// order. Nothing given, nothing written.
pub fn entry_updates(text: Option<String>, typed: Option<bool>) -> (updates: Vec<EntryUpdate>)
    ensures
        updates@ == entry_update_plan(text, typed),
{
    let mut updates: Vec<EntryUpdate> = Vec::new();
    if let Some(text) = text {
        updates.push(EntryUpdate::Text(text));
    }
    if let Some(flag) = typed {
        updates.push(EntryUpdate::Typed(flag));
    }
    updates
}

/// The three names are three different texts, so each mode is read back from
/// its own name.
pub proof fn lemma_name_read_back(mode: SessionMode)
    ensures
        SessionMode::named(mode.name()) == Some(mode),
        SessionMode::stored_as(mode.name()) == mode,
{
    reveal_strlit("hold");
    reveal_strlit("toggle");
    reveal_strlit("record");
    assert("hold"@.len() == 4 && "toggle"@.len() == 6);
    assert("toggle"@[0] == 't' && "record"@[0] == 'r');
}

/// A text names a mode only if it is that mode's name.
pub proof fn lemma_named_is_name(text: Seq<char>, mode: SessionMode)
    ensures
        SessionMode::named(text) == Some(mode) ==> text == mode.name(),
{
}

/// `str`'s `==`: two texts are equal exactly if they hold the same
/// characters in the same order.
#[verifier::external_body]
fn same_text(a: &str, b: &str) -> (same: bool)
    ensures
        same == (a@ == b@),
{
    a == b
}

} // verus!

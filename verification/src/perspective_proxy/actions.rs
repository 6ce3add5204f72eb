//! The action language: command lists written as text.
//!
//! An action is a text that holds command lists. A command list opens with
//! `[{`, stays on one line, and ends at the last `}]` of that line; it
//! describes one command. Within it, fields are written `name: "value"`,
//! optionally followed by a comma and white space. A value is one or more
//! characters that are neither white space nor a comma, and it ends before
//! the last double quote of its run of such characters. The `action` field
//! must follow the opening brace directly, and a `status` field must be
//! followed by the closing brace. Of a field written twice the first counts.

use crate::text::{
    chars_of, opt_view, replace, spec_replace, spec_starts_with, strip_prefix, substring, views,
};
use crate::lists::spec_less;
use crate::text::str_eq;
use crate::types::{is_space, spec_is_space};
use vstd::prelude::*;
use vstd::string::*;

verus! {

/// One command of an action: what to do, and the link to do it with.
#[derive(Debug, PartialEq, Eq)]
pub struct Command {
    pub action: String,
    pub source: String,
    pub predicate: Option<String>,
    pub target: String,
    pub status: Option<String>,
}

/// The mathematical value of a [`Command`].
pub struct CommandView {
    pub action: Seq<char>,
    pub source: Seq<char>,
    pub predicate: Option<Seq<char>>,
    pub target: Seq<char>,
    pub status: Option<Seq<char>>,
}

impl View for Command {
    type V = CommandView;

    open spec fn view(&self) -> CommandView {
        CommandView {
            action: self.action@,
            source: self.source@,
            predicate: opt_view(self.predicate),
            target: self.target@,
            status: opt_view(self.status),
        }
    }
}

/// An optional text with every occurrence of a pattern replaced.
pub open spec fn spec_replace_opt(
    value: Option<Seq<char>>,
    pattern: Seq<char>,
    replacement: Seq<char>,
) -> Option<Seq<char>> {
    match value {
        Some(v) => Some(spec_replace(v, pattern, replacement)),
        None => None,
    }
}

/// A command with every occurrence of a pattern replaced in every field.
pub open spec fn spec_replace_command(
    command: CommandView,
    pattern: Seq<char>,
    replacement: Seq<char>,
) -> CommandView {
    CommandView {
        action: spec_replace(command.action, pattern, replacement),
        source: spec_replace(command.source, pattern, replacement),
        predicate: spec_replace_opt(command.predicate, pattern, replacement),
        target: spec_replace(command.target, pattern, replacement),
        status: spec_replace_opt(command.status, pattern, replacement),
    }
}

fn replace_opt(value: &Option<String>, pattern: &str, replacement: &str) -> (out: Option<String>)
    ensures
        opt_view(out) == spec_replace_opt(opt_view(*value), pattern@, replacement@),
{
    match value {
        Some(v) => Some(replace(v.as_str(), pattern, replacement)),
        None => None,
    }
}

impl Command {
    /// The command with every occurrence of `pattern` replaced by
    /// `replacement`, in every field.
    pub fn replace(&self, pattern: &str, replacement: &str) -> (out: Command)
        ensures
            out@ == spec_replace_command(self@, pattern@, replacement@),
    {
        Command {
            action: replace(self.action.as_str(), pattern, replacement),
            source: replace(self.source.as_str(), pattern, replacement),
            predicate: replace_opt(&self.predicate, pattern, replacement),
            target: replace(self.target.as_str(), pattern, replacement),
            status: replace_opt(&self.status, pattern, replacement),
        }
    }
}

/// Why an action text does not parse.
#[derive(Debug, Clone, Copy, PartialEq, Eq, Structural)]
pub enum ParseError {
    /// A command list that holds no command: `[]`.
    EmptyCommandList,
    /// A command without `action`.
    MissingAction,
    /// A command without `source`.
    MissingSource,
    /// A command without `target`.
    MissingTarget,
}

impl ParseError {
    /// The text shown to the caller.
    pub fn message(&self) -> (out: String)
        ensures
            out@ == (match *self {
                ParseError::EmptyCommandList => "Command list without command"@,
                ParseError::MissingAction => "Comman without action"@,
                ParseError::MissingSource => "Comman without source"@,
                ParseError::MissingTarget => "Comman without target"@,
            }),
    {
        match self {
            ParseError::EmptyCommandList => String::from_str("Command list without command"),
            ParseError::MissingAction => String::from_str("Comman without action"),
            ParseError::MissingSource => String::from_str("Comman without source"),
            ParseError::MissingTarget => String::from_str("Comman without target"),
        }
    }
}

/// The fields of a command.
#[derive(Debug, Clone, Copy, PartialEq, Eq, Structural)]
pub enum FieldKind {
    Action,
    Source,
    Predicate,
    Target,
    Status,
}

/// How a field opens in the text. The action opens with the command's brace.
pub open spec fn spec_field_name(kind: FieldKind) -> Seq<char> {
    match kind {
        FieldKind::Action => "{action:"@,
        FieldKind::Source => "source:"@,
        FieldKind::Predicate => "predicate:"@,
        FieldKind::Target => "target:"@,
        FieldKind::Status => "status:"@,
    }
}

/// Whether `c` may stand in a value: it is neither white space nor a comma.
pub open spec fn spec_is_value_char(c: char) -> bool {
    !spec_is_space(c) && c != ','
}

/// The first position at or behind `from` that holds no white space.
pub open spec fn spec_skip_spaces(s: Seq<char>, from: int) -> int
    decreases s.len() - from,
{
    if 0 <= from < s.len() && spec_is_space(s[from]) {
        spec_skip_spaces(s, from + 1)
    } else {
        from
    }
}

/// The first position at or behind `from` that holds no value character.
pub open spec fn spec_run_end(s: Seq<char>, from: int) -> int
    decreases s.len() - from,
{
    if 0 <= from < s.len() && spec_is_value_char(s[from]) {
        spec_run_end(s, from + 1)
    } else {
        from
    }
}

/// The position behind a value that closes at `quote`: behind the quote, one
/// comma if there is one, and any white space.
pub open spec fn spec_after_value(s: Seq<char>, quote: int) -> int {
    if quote + 1 < s.len() && s[quote + 1] == ',' {
        spec_skip_spaces(s, quote + 2)
    } else {
        spec_skip_spaces(s, quote + 1)
    }
}

/// Whether a value of the field may close at `quote`: a double quote stands
/// there, and for a status the closing brace follows the value.
pub open spec fn spec_closes(s: Seq<char>, kind: FieldKind, quote: int) -> bool {
    &&& 0 <= quote < s.len()
    &&& s[quote] == '"'
    &&& kind == FieldKind::Status ==> {
        &&& spec_after_value(s, quote) < s.len()
        &&& s[spec_after_value(s, quote)] == '}'
    }
}

/// The last position behind `start` and before `end` at which a value of the
/// field may close.
pub open spec fn spec_closing_quote(s: Seq<char>, kind: FieldKind, start: int, end: int) -> Option<
    int,
>
    decreases end - start,
{
    if end <= start + 1 {
        None
    } else if spec_closes(s, kind, end - 1) {
        Some(end - 1)
    } else {
        spec_closing_quote(s, kind, start, end - 1)
    }
}

/// A field found in the text: its value, and where the text goes on.
pub struct FieldMatch {
    pub value: Seq<char>,
    pub next: int,
}

/// The field of the given kind that is written at `pos`, if one is.
pub open spec fn spec_field_at(s: Seq<char>, kind: FieldKind, pos: int) -> Option<FieldMatch> {
    let name = spec_field_name(kind);
    let quote = spec_skip_spaces(s, pos + name.len());
    let start = quote + 1;
    if 0 <= pos <= s.len() && spec_starts_with(s.skip(pos), name) && quote < s.len() && s[quote]
        == '"' {
        match spec_closing_quote(s, kind, start, spec_run_end(s, start)) {
            Some(close) => Some(
                FieldMatch {
                    value: s.subrange(start, close),
                    next: if kind == FieldKind::Status {
                        spec_after_value(s, close) + 1
                    } else {
                        spec_after_value(s, close)
                    },
                },
            ),
            None => None,
        }
    } else {
        None
    }
}

/// The values found so far for the fields of a command.
pub struct Fields {
    pub action: Option<Seq<char>>,
    pub source: Option<Seq<char>>,
    pub predicate: Option<Seq<char>>,
    pub target: Option<Seq<char>>,
    pub status: Option<Seq<char>>,
}

impl Fields {
    /// No field found yet.
    pub open spec fn none() -> Fields {
        Fields { action: None, source: None, predicate: None, target: None, status: None }
    }

    /// The fields after one more was found: the first value of a field stays.
    pub open spec fn with(self, kind: FieldKind, value: Seq<char>) -> Fields {
        match kind {
            FieldKind::Action => Fields { action: first_of(self.action, value), ..self },
            FieldKind::Source => Fields { source: first_of(self.source, value), ..self },
            FieldKind::Predicate => Fields { predicate: first_of(self.predicate, value), ..self },
            FieldKind::Target => Fields { target: first_of(self.target, value), ..self },
            FieldKind::Status => Fields { status: first_of(self.status, value), ..self },
        }
    }
}

/// The value already there, else the new one.
pub open spec fn first_of(known: Option<Seq<char>>, value: Seq<char>) -> Option<Seq<char>> {
    match known {
        Some(v) => Some(v),
        None => Some(value),
    }
}

/// A field of some kind, found in the text.
pub struct FoundField {
    pub kind: FieldKind,
    pub field: FieldMatch,
}

/// The field written at `pos`, of whichever kind.
pub open spec fn spec_any_field_at(s: Seq<char>, pos: int) -> Option<FoundField> {
    if spec_field_at(s, FieldKind::Action, pos) is Some {
        Some(FoundField { kind: FieldKind::Action, field: spec_field_at(s, FieldKind::Action, pos)->0 })
    } else if spec_field_at(s, FieldKind::Source, pos) is Some {
        Some(FoundField { kind: FieldKind::Source, field: spec_field_at(s, FieldKind::Source, pos)->0 })
    } else if spec_field_at(s, FieldKind::Predicate, pos) is Some {
        Some(
            FoundField {
                kind: FieldKind::Predicate,
                field: spec_field_at(s, FieldKind::Predicate, pos)->0,
            },
        )
    } else if spec_field_at(s, FieldKind::Target, pos) is Some {
        Some(FoundField { kind: FieldKind::Target, field: spec_field_at(s, FieldKind::Target, pos)->0 })
    } else if spec_field_at(s, FieldKind::Status, pos) is Some {
        Some(FoundField { kind: FieldKind::Status, field: spec_field_at(s, FieldKind::Status, pos)->0 })
    } else {
        None
    }
}

/// The fields found from `pos` on, added to those found before. The text is
/// searched from the left; behind a field the search goes on where the field
/// ended.
pub open spec fn spec_scan_fields(s: Seq<char>, pos: int, found: Fields) -> Fields
    decreases s.len() - pos,
{
    if pos < 0 || pos >= s.len() {
        found
    } else {
        match spec_any_field_at(s, pos) {
            Some(found_here) => if pos < found_here.field.next <= s.len() {
                spec_scan_fields(
                    s,
                    found_here.field.next,
                    found.with(found_here.kind, found_here.field.value),
                )
            } else {
                spec_scan_fields(s, pos + 1, found)
            },
            None => spec_scan_fields(s, pos + 1, found),
        }
    }
}

/// The command that the text of a command list describes.
pub open spec fn spec_command(text: Seq<char>) -> Result<CommandView, ParseError> {
    let fields = spec_scan_fields(text, 0, Fields::none());
    if fields.action is None {
        Err(ParseError::MissingAction)
    } else if fields.source is None {
        Err(ParseError::MissingSource)
    } else if fields.target is None {
        Err(ParseError::MissingTarget)
    } else {
        Ok(
            CommandView {
                action: fields.action->0,
                source: fields.source->0,
                predicate: fields.predicate,
                target: fields.target->0,
                status: fields.status,
            },
        )
    }
}

/// The first line break at or behind `from`, or the end of the text.
pub open spec fn spec_line_end(s: Seq<char>, from: int) -> int
    decreases s.len() - from,
{
    if 0 <= from < s.len() && s[from] != '\n' {
        spec_line_end(s, from + 1)
    } else {
        from
    }
}

/// Whether a command list may end at `at`: a closing brace stands there and
/// a closing bracket behind it.
pub open spec fn spec_ends_list(s: Seq<char>, at: int) -> bool {
    0 <= at && at + 1 < s.len() && s[at] == '}' && s[at + 1] == ']'
}

/// The last position from `from` on and before `to` at which a command list
/// may end.
pub open spec fn spec_last_end(s: Seq<char>, from: int, to: int) -> Option<int>
    decreases to - from,
{
    if to <= from {
        None
    } else if spec_ends_list(s, to - 1) {
        Some(to - 1)
    } else {
        spec_last_end(s, from, to - 1)
    }
}

/// Where the command list that opens at `pos` ends, if one opens there: the
/// text goes on with `[{`, and the line holds a `}]` behind it.
pub open spec fn spec_list_end(s: Seq<char>, pos: int) -> Option<int> {
    if 0 <= pos && pos + 1 < s.len() && s[pos] == '[' && s[pos + 1] == '{' {
        spec_last_end(s, pos + 2, spec_line_end(s, pos + 2))
    } else {
        None
    }
}

/// The commands of the command lists found from `pos` on, or the first
/// error among them.
pub open spec fn spec_commands_from(s: Seq<char>, pos: int) -> Result<Seq<CommandView>, ParseError>
    decreases s.len() - pos,
{
    let end = spec_list_end(s, pos);
    if pos < 0 || pos >= s.len() {
        Ok(Seq::empty())
    } else if end is Some && pos + 2 <= end->0 && end->0 + 2 <= s.len() {
        match spec_command(s.subrange(pos + 1, end->0 + 1)) {
            Ok(command) => match spec_commands_from(s, end->0 + 2) {
                Ok(rest) => Ok(seq![command] + rest),
                Err(e) => Err(e),
            },
            Err(e) => Err(e),
        }
    } else if s[pos] == '[' && pos + 1 < s.len() && s[pos + 1] == ']' {
        Err(ParseError::EmptyCommandList)
    } else {
        spec_commands_from(s, pos + 1)
    }
}

/// The commands that an action text describes, or why it does not parse.
pub open spec fn spec_parse_action(action: Seq<char>) -> Result<Seq<CommandView>, ParseError> {
    spec_commands_from(action, 0)
}



fn field_name(kind: FieldKind) -> (name: &'static str)
    ensures
        name@ == spec_field_name(kind),
{
    match kind {
        FieldKind::Action => "{action:",
        FieldKind::Source => "source:",
        FieldKind::Predicate => "predicate:",
        FieldKind::Target => "target:",
        FieldKind::Status => "status:",
    }
}

fn skip_spaces(chars: &Vec<char>, from: usize) -> (at: usize)
    requires
        from <= chars.len(),
    ensures
        at == spec_skip_spaces(chars@, from as int),
        from <= at <= chars.len(),
{
    let mut i: usize = from;
    while i < chars.len() && is_space(chars[i])
        invariant
            from <= i <= chars.len(),
            spec_skip_spaces(chars@, from as int) == spec_skip_spaces(chars@, i as int),
        decreases chars.len() - i,
    {
        i += 1;
    }
    i
}

fn run_end(chars: &Vec<char>, from: usize) -> (at: usize)
    requires
        from <= chars.len(),
    ensures
        at == spec_run_end(chars@, from as int),
        from <= at <= chars.len(),
{
    let mut i: usize = from;
    while i < chars.len() && !is_space(chars[i]) && chars[i] != ','
        invariant
            from <= i <= chars.len(),
            spec_run_end(chars@, from as int) == spec_run_end(chars@, i as int),
        decreases chars.len() - i,
    {
        i += 1;
    }
    i
}

fn after_value(chars: &Vec<char>, quote: usize) -> (at: usize)
    requires
        quote < chars.len(),
    ensures
        at == spec_after_value(chars@, quote as int),
        quote < at <= chars.len(),
{
    if quote + 1 < chars.len() && chars[quote + 1] == ',' {
        skip_spaces(chars, quote + 2)
    } else {
        skip_spaces(chars, quote + 1)
    }
}

fn closes(chars: &Vec<char>, kind: FieldKind, quote: usize) -> (out: bool)
    requires
        quote < chars.len(),
    ensures
        out == spec_closes(chars@, kind, quote as int),
{
    if chars[quote] != '"' {
        return false;
    }
    match kind {
        FieldKind::Status => {
            let at = after_value(chars, quote);
            at < chars.len() && chars[at] == '}'
        },
        _ => true,
    }
}

fn closing_quote(chars: &Vec<char>, kind: FieldKind, start: usize, end: usize) -> (out: Option<
    usize,
>)
    requires
        start <= end <= chars.len(),
    ensures
        out is Some <==> spec_closing_quote(chars@, kind, start as int, end as int) is Some,
        out matches Some(q) ==> {
            &&& q == spec_closing_quote(chars@, kind, start as int, end as int)->0
            &&& start < q < end
            &&& spec_closes(chars@, kind, q as int)
        },
{
    let mut e: usize = end;
    while e - start > 1
        invariant
            start <= e <= end <= chars.len(),
            spec_closing_quote(chars@, kind, start as int, end as int) == spec_closing_quote(
                chars@,
                kind,
                start as int,
                e as int,
            ),
        decreases e,
    {
        if closes(chars, kind, e - 1) {
            return Some(e - 1);
        }
        e -= 1;
    }
    None
}

fn field_at(chars: &Vec<char>, kind: FieldKind, pos: usize) -> (out: Option<(String, usize)>)
    requires
        pos <= chars.len(),
    ensures
        out is Some <==> spec_field_at(chars@, kind, pos as int) is Some,
        out matches Some((value, next)) ==> {
            &&& value@ == spec_field_at(chars@, kind, pos as int)->0.value
            &&& next == spec_field_at(chars@, kind, pos as int)->0.next
            &&& pos < next <= chars.len()
        },
{
    let opened = match strip_prefix(chars, pos, field_name(kind)) {
        Some(at) => at,
        None => {
            return None;
        },
    };
    let quote = skip_spaces(chars, opened);
    if quote >= chars.len() || chars[quote] != '"' {
        return None;
    }
    let start = quote + 1;
    let end = run_end(chars, start);
    match closing_quote(chars, kind, start, end) {
        Some(close) => {
            let value = substring(chars, start, close);
            let after = after_value(chars, close);
            let next = match kind {
                FieldKind::Status => after + 1,
                _ => after,
            };
            Some((value, next))
        },
        None => None,
    }
}

fn any_field_at(chars: &Vec<char>, pos: usize) -> (out: Option<(FieldKind, String, usize)>)
    requires
        pos <= chars.len(),
    ensures
        out is Some <==> spec_any_field_at(chars@, pos as int) is Some,
        out matches Some((kind, value, next)) ==> {
            &&& kind == spec_any_field_at(chars@, pos as int)->0.kind
            &&& value@ == spec_any_field_at(chars@, pos as int)->0.field.value
            &&& next == spec_any_field_at(chars@, pos as int)->0.field.next
            &&& pos < next <= chars.len()
        },
{
    if let Some((value, next)) = field_at(chars, FieldKind::Action, pos) {
        return Some((FieldKind::Action, value, next));
    }
    if let Some((value, next)) = field_at(chars, FieldKind::Source, pos) {
        return Some((FieldKind::Source, value, next));
    }
    if let Some((value, next)) = field_at(chars, FieldKind::Predicate, pos) {
        return Some((FieldKind::Predicate, value, next));
    }
    if let Some((value, next)) = field_at(chars, FieldKind::Target, pos) {
        return Some((FieldKind::Target, value, next));
    }
    if let Some((value, next)) = field_at(chars, FieldKind::Status, pos) {
        return Some((FieldKind::Status, value, next));
    }
    None
}

fn keep_first(known: Option<String>, value: String) -> (out: Option<String>)
    ensures
        opt_view(out) == first_of(opt_view(known), value@),
{
    match known {
        Some(v) => Some(v),
        None => Some(value),
    }
}

/// Reads the command that the text of a command list describes.
pub fn command_of(text: &Vec<char>) -> (out: Result<Command, ParseError>)
    ensures
        out is Ok <==> spec_command(text@) is Ok,
        out matches Ok(command) ==> command@ == spec_command(text@)->Ok_0,
        out matches Err(e) ==> e == spec_command(text@)->Err_0,
{
    let mut action: Option<String> = None;
    let mut source: Option<String> = None;
    let mut predicate: Option<String> = None;
    let mut target: Option<String> = None;
    let mut status: Option<String> = None;
    let mut pos: usize = 0;
    while pos < text.len()
        invariant
            pos <= text.len(),
            spec_scan_fields(text@, 0, Fields::none()) == spec_scan_fields(
                text@,
                pos as int,
                Fields {
                    action: opt_view(action),
                    source: opt_view(source),
                    predicate: opt_view(predicate),
                    target: opt_view(target),
                    status: opt_view(status),
                },
            ),
        decreases text.len() - pos,
    {
        match any_field_at(text, pos) {
            Some((kind, value, next)) => {
                match kind {
                    FieldKind::Action => {
                        action = keep_first(action, value);
                    },
                    FieldKind::Source => {
                        source = keep_first(source, value);
                    },
                    FieldKind::Predicate => {
                        predicate = keep_first(predicate, value);
                    },
                    FieldKind::Target => {
                        target = keep_first(target, value);
                    },
                    FieldKind::Status => {
                        status = keep_first(status, value);
                    },
                }
                pos = next;
            },
            None => {
                pos += 1;
            },
        }
    }
    let action = match action {
        Some(v) => v,
        None => {
            return Err(ParseError::MissingAction);
        },
    };
    let source = match source {
        Some(v) => v,
        None => {
            return Err(ParseError::MissingSource);
        },
    };
    let target = match target {
        Some(v) => v,
        None => {
            return Err(ParseError::MissingTarget);
        },
    };
    Ok(Command { action, source, predicate, target, status })
}

fn line_end(chars: &Vec<char>, from: usize) -> (at: usize)
    requires
        from <= chars.len(),
    ensures
        at == spec_line_end(chars@, from as int),
        from <= at <= chars.len(),
{
    let mut i: usize = from;
    while i < chars.len() && chars[i] != '\n'
        invariant
            from <= i <= chars.len(),
            spec_line_end(chars@, from as int) == spec_line_end(chars@, i as int),
        decreases chars.len() - i,
    {
        i += 1;
    }
    i
}

fn last_end(chars: &Vec<char>, from: usize, to: usize) -> (out: Option<usize>)
    requires
        from <= to <= chars.len(),
    ensures
        out == (match spec_last_end(chars@, from as int, to as int) {
            Some(e) => Some(e as usize),
            None => None,
        }),
        out matches Some(e) ==> from <= e < to && e + 1 < chars.len() && e == spec_last_end(
            chars@,
            from as int,
            to as int,
        )->0,
{
    let mut e: usize = to;
    while e > from
        invariant
            from <= e <= to <= chars.len(),
            spec_last_end(chars@, from as int, to as int) == spec_last_end(
                chars@,
                from as int,
                e as int,
            ),
        decreases e,
    {
        if e < chars.len() && chars[e - 1] == '}' && chars[e] == ']' {
            return Some(e - 1);
        }
        e -= 1;
    }
    None
}

fn list_end(chars: &Vec<char>, pos: usize) -> (out: Option<usize>)
    requires
        pos < chars.len(),
    ensures
        out is Some <==> spec_list_end(chars@, pos as int) is Some,
        out matches Some(e) ==> e == spec_list_end(chars@, pos as int)->0 && pos + 2 <= e && e + 2
            <= chars.len(),
{
    if chars[pos] == '[' && pos + 1 < chars.len() && chars[pos + 1] == '{' {
        let to = line_end(chars, pos + 2);
        last_end(chars, pos + 2, to)
    } else {
        None
    }
}

fn slice(chars: &Vec<char>, from: usize, to: usize) -> (out: Vec<char>)
    requires
        from <= to <= chars.len(),
    ensures
        out@ == chars@.subrange(from as int, to as int),
{
    let mut out: Vec<char> = Vec::new();
    let mut i: usize = from;
    while i < to
        invariant
            from <= i <= to <= chars.len(),
            out@ == chars@.subrange(from as int, i as int),
        decreases to - i,
    {
        proof {
            assert(chars@.subrange(from as int, i as int).push(chars@[i as int]) =~= chars@.subrange(
                from as int,
                i + 1,
            ));
        }
        out.push(chars[i]);
        i += 1;
    }
    out
}

/// Reads the commands that an action text describes. On an error no command
/// is handed out.
pub fn parse_action(action: &str) -> (out: Result<Vec<Command>, ParseError>)
    ensures
        out is Ok <==> spec_parse_action(action@) is Ok,
        out matches Ok(commands) ==> views(commands@) == spec_parse_action(action@)->Ok_0,
        out matches Err(e) ==> e == spec_parse_action(action@)->Err_0,
{
    let chars = chars_of(action);
    let mut commands: Vec<Command> = Vec::new();
    let mut pos: usize = 0;
    proof {
        assert(views(commands@) =~= Seq::<CommandView>::empty());
        match spec_commands_from(chars@, 0) {
            Ok(rest) => {
                assert(Seq::<CommandView>::empty() + rest =~= rest);
            },
            Err(_) => {},
        }
    }
    while pos < chars.len()
        invariant
            pos <= chars.len(),
            chars@ == action@,
            spec_commands_from(chars@, 0) == (match spec_commands_from(chars@, pos as int) {
                Ok(rest) => Ok(views(commands@) + rest),
                Err(e) => Err(e),
            }),
        decreases chars.len() - pos,
    {
        match list_end(&chars, pos) {
            Some(end) => {
                let text = slice(&chars, pos + 1, end + 1);
                match command_of(&text) {
                    Ok(command) => {
                        proof {
                            let before = views(commands@);
                            assert(views(commands@.push(command)) =~= before.push(command@));
                            match spec_commands_from(chars@, end + 2) {
                                Ok(rest) => {
                                    assert(before + (seq![command@] + rest) =~= before.push(
                                        command@,
                                    ) + rest);
                                },
                                Err(_) => {},
                            }
                        }
                        commands.push(command);
                        pos = end + 2;
                    },
                    Err(e) => {
                        return Err(e);
                    },
                }
            },
            None => {
                if chars[pos] == '[' && pos + 1 < chars.len() && chars[pos + 1] == ']' {
                    return Err(ParseError::EmptyCommandList);
                }
                pos += 1;
            },
        }
    }
    proof {
        assert(views(commands@) + Seq::<CommandView>::empty() =~= views(commands@));
    }
    Ok(commands)
}



/// A textual substitution: every occurrence of `pattern` becomes
/// `replacement`.
#[derive(Debug, PartialEq, Eq)]
pub struct Substitution {
    pub pattern: String,
    pub replacement: String,
}

/// The mathematical value of a [`Substitution`].
pub struct SubstitutionView {
    pub pattern: Seq<char>,
    pub replacement: Seq<char>,
}

impl View for Substitution {
    type V = SubstitutionView;

    open spec fn view(&self) -> SubstitutionView {
        SubstitutionView { pattern: self.pattern@, replacement: self.replacement@ }
    }
}

/// A call on the facade that a command stands for.
#[allow(inconsistent_fields)]
#[derive(Debug, PartialEq, Eq)]
pub enum ProxyCall {
    AddLink { source: String, target: String, predicate: Option<String>, status: Option<String> },
    SetSingleTarget { source: String, predicate: String, target: String },
}

/// The mathematical value of a [`ProxyCall`].
#[allow(inconsistent_fields)]
pub enum ProxyCallView {
    AddLink {
        source: Seq<char>,
        target: Seq<char>,
        predicate: Option<Seq<char>>,
        status: Option<Seq<char>>,
    },
    SetSingleTarget { source: Seq<char>, predicate: Seq<char>, target: Seq<char> },
}

impl View for ProxyCall {
    type V = ProxyCallView;

    open spec fn view(&self) -> ProxyCallView {
        match self {
            ProxyCall::AddLink { source, target, predicate, status } => ProxyCallView::AddLink {
                source: source@,
                target: target@,
                predicate: opt_view(*predicate),
                status: opt_view(*status),
            },
            ProxyCall::SetSingleTarget { source, predicate, target } => {
                ProxyCallView::SetSingleTarget {
                    source: source@,
                    predicate: predicate@,
                    target: target@,
                }
            },
        }
    }
}

/// Why a command stands for no call.
#[derive(Debug, PartialEq, Eq)]
pub enum ActionError {
    /// `removeLink` is not implemented.
    RemoveLinkUnimplemented,
    /// `setSingleTarget` without a predicate.
    MissingPredicate,
    /// An action that is none of the known ones.
    UnknownAction(String),
}

/// The mathematical value of an [`ActionError`].
pub enum ActionErrorView {
    RemoveLinkUnimplemented,
    MissingPredicate,
    UnknownAction(Seq<char>),
}

impl View for ActionError {
    type V = ActionErrorView;

    open spec fn view(&self) -> ActionErrorView {
        match self {
            ActionError::RemoveLinkUnimplemented => ActionErrorView::RemoveLinkUnimplemented,
            ActionError::MissingPredicate => ActionErrorView::MissingPredicate,
            ActionError::UnknownAction(action) => ActionErrorView::UnknownAction(action@),
        }
    }
}

impl ActionError {
    /// The text shown to the caller.
    pub fn message(&self) -> (out: String)
        ensures
            out@ == (match self@ {
                ActionErrorView::RemoveLinkUnimplemented => "removeLink is not implemented"@,
                ActionErrorView::MissingPredicate => "No predicate in set_single_target action"@,
                ActionErrorView::UnknownAction(action) => "Unknown action: "@ + action,
            }),
    {
        match self {
            ActionError::RemoveLinkUnimplemented => String::from_str(
                "removeLink is not implemented",
            ),
            ActionError::MissingPredicate => String::from_str(
                "No predicate in set_single_target action",
            ),
            ActionError::UnknownAction(action) => {
                let mut out = String::from_str("Unknown action: ");
                out.append(action.as_str());
                out
            },
        }
    }
}

/// The call that a command stands for.
pub open spec fn spec_resolve(command: CommandView) -> Result<ProxyCallView, ActionErrorView> {
    if command.action == "addLink"@ {
        Ok(
            ProxyCallView::AddLink {
                source: command.source,
                target: command.target,
                predicate: command.predicate,
                status: command.status,
            },
        )
    } else if command.action == "removeLink"@ {
        Err(ActionErrorView::RemoveLinkUnimplemented)
    } else if command.action == "setSingleTarget"@ {
        match command.predicate {
            Some(predicate) => Ok(
                ProxyCallView::SetSingleTarget {
                    source: command.source,
                    predicate,
                    target: command.target,
                },
            ),
            None => Err(ActionErrorView::MissingPredicate),
        }
    } else {
        Err(ActionErrorView::UnknownAction(command.action))
    }
}

/// A command after substitutions were applied to it, one after the other.
pub open spec fn spec_substitute(
    command: CommandView,
    substitutions: Seq<SubstitutionView>,
) -> CommandView
    decreases substitutions.len(),
{
    if substitutions.len() == 0 {
        command
    } else {
        spec_replace_command(
            spec_substitute(command, substitutions.drop_last()),
            substitutions.last().pattern,
            substitutions.last().replacement,
        )
    }
}

/// A command made concrete: `this` stands for `base`, then the caller's
/// substitutions apply in order.
pub open spec fn spec_instantiate(
    command: CommandView,
    base: Seq<char>,
    substitutions: Seq<SubstitutionView>,
) -> CommandView {
    spec_substitute(spec_replace_command(command, "this"@, base), substitutions)
}

/// What to do for an action: the calls to make in order, and the error to
/// report behind them if a command stands for no call. The commands behind
/// such a command are not looked at.
#[derive(Debug, PartialEq, Eq)]
pub struct ActionPlan {
    pub calls: Vec<ProxyCall>,
    pub failure: Option<ActionError>,
}

/// The mathematical value of an [`ActionPlan`].
pub struct ActionPlanView {
    pub calls: Seq<ProxyCallView>,
    pub failure: Option<ActionErrorView>,
}

impl View for ActionPlan {
    type V = ActionPlanView;

    open spec fn view(&self) -> ActionPlanView {
        ActionPlanView {
            calls: views(self.calls@),
            failure: match self.failure {
                Some(e) => Some(e@),
                None => None,
            },
        }
    }
}

/// The plan for commands, taken in order.
pub open spec fn spec_plan(
    commands: Seq<CommandView>,
    base: Seq<char>,
    substitutions: Seq<SubstitutionView>,
) -> ActionPlanView
    decreases commands.len(),
{
    if commands.len() == 0 {
        ActionPlanView { calls: Seq::empty(), failure: None }
    } else {
        match spec_resolve(spec_instantiate(commands[0], base, substitutions)) {
            Ok(call) => {
                let rest = spec_plan(commands.skip(1), base, substitutions);
                ActionPlanView { calls: seq![call] + rest.calls, failure: rest.failure }
            },
            Err(e) => ActionPlanView { calls: Seq::empty(), failure: Some(e) },
        }
    }
}

/// The plan for an action text, or why the text does not parse. A text that
/// does not parse gives no call at all.
pub open spec fn spec_execute_action(
    action: Seq<char>,
    base: Seq<char>,
    substitutions: Seq<SubstitutionView>,
) -> Result<ActionPlanView, ParseError> {
    match spec_parse_action(action) {
        Ok(commands) => Ok(spec_plan(commands, base, spec_ordered(substitutions))),
        Err(e) => Err(e),
    }
}

/// How many substitutions at the head of a list have a pattern that comes
/// before `pattern` in the order of strings.
pub open spec fn spec_place(sorted: Seq<SubstitutionView>, pattern: Seq<char>) -> int
    decreases sorted.len(),
{
    if sorted.len() == 0 || !spec_less(sorted[0].pattern, pattern) {
        0
    } else {
        1 + spec_place(sorted.skip(1), pattern)
    }
}

/// A list of substitutions sorted by pattern, after one more was put in: it
/// takes the place of the one with its pattern, or goes where its pattern
/// belongs.
pub open spec fn spec_put(
    sorted: Seq<SubstitutionView>,
    substitution: SubstitutionView,
) -> Seq<SubstitutionView> {
    let at = spec_place(sorted, substitution.pattern);
    if 0 <= at < sorted.len() && sorted[at].pattern == substitution.pattern {
        sorted.update(at, substitution)
    } else {
        sorted.insert(at, substitution)
    }
}

/// The caller's substitutions as a map from patterns would hold them: one
/// for each pattern, the last that was given, in the order of the patterns.
pub open spec fn spec_ordered(substitutions: Seq<SubstitutionView>) -> Seq<SubstitutionView>
    decreases substitutions.len(),
{
    if substitutions.len() == 0 {
        Seq::empty()
    } else {
        spec_put(spec_ordered(substitutions.drop_last()), substitutions.last())
    }
}

/// Whether the patterns of a list of substitutions rise strictly.
pub open spec fn spec_patterns_rise(sorted: Seq<SubstitutionView>) -> bool {
    forall|i: int, j: int|
        0 <= i < j < sorted.len() ==> spec_less(
            (#[trigger] sorted[i]).pattern,
            (#[trigger] sorted[j]).pattern,
        )
}

/// Where a pattern belongs: within the list or just behind it, behind every
/// pattern that comes before it, and before one that does not.
pub proof fn lemma_place(sorted: Seq<SubstitutionView>, pattern: Seq<char>)
    ensures
        0 <= spec_place(sorted, pattern) <= sorted.len(),
        forall|k: int|
            0 <= k < spec_place(sorted, pattern) ==> spec_less(
                (#[trigger] sorted[k]).pattern,
                pattern,
            ),
        spec_place(sorted, pattern) < sorted.len() ==> !spec_less(
            sorted[spec_place(sorted, pattern)].pattern,
            pattern,
        ),
    decreases sorted.len(),
{
    if sorted.len() > 0 && spec_less(sorted[0].pattern, pattern) {
        lemma_place(sorted.skip(1), pattern);
        assert forall|k: int| 0 <= k < spec_place(sorted, pattern) implies spec_less(
            (#[trigger] sorted[k]).pattern,
            pattern,
        ) by {
            if k > 0 {
                assert(sorted[k] == sorted.skip(1)[k - 1]);
            }
        }
    }
}

/// The place of a pattern is the first position whose pattern does not come
/// before it.
pub proof fn lemma_place_is(sorted: Seq<SubstitutionView>, pattern: Seq<char>, at: int)
    requires
        0 <= at <= sorted.len(),
        forall|k: int| 0 <= k < at ==> spec_less((#[trigger] sorted[k]).pattern, pattern),
        at < sorted.len() ==> !spec_less(sorted[at].pattern, pattern),
    ensures
        spec_place(sorted, pattern) == at,
    decreases sorted.len(),
{
    if at > 0 {
        let rest = sorted.skip(1);
        assert(spec_less(sorted[0].pattern, pattern));
        assert forall|k: int| 0 <= k < at - 1 implies spec_less(
            (#[trigger] rest[k]).pattern,
            pattern,
        ) by {
            assert(rest[k] == sorted[k + 1]);
        }
        if at < sorted.len() {
            assert(rest[at - 1] == sorted[at]);
        }
        lemma_place_is(rest, pattern, at - 1);
    }
}

/// Putting a substitution into a list whose patterns rise leaves them
/// rising.
pub proof fn lemma_put_keeps_patterns_rising(
    sorted: Seq<SubstitutionView>,
    substitution: SubstitutionView,
)
    requires
        spec_patterns_rise(sorted),
    ensures
        spec_patterns_rise(spec_put(sorted, substitution)),
{
    let pattern = substitution.pattern;
    let at = spec_place(sorted, pattern);
    let after = spec_put(sorted, substitution);
    lemma_place(sorted, pattern);
    if at < sorted.len() && sorted[at].pattern == pattern {
        assert forall|i: int, j: int| 0 <= i < j < after.len() implies spec_less(
            (#[trigger] after[i]).pattern,
            (#[trigger] after[j]).pattern,
        ) by {
            assert(after[i].pattern == sorted[i].pattern);
            assert(after[j].pattern == sorted[j].pattern);
        }
    } else {
        if at < sorted.len() {
            crate::lists::lemma_less_total(sorted[at].pattern, pattern);
        }
        assert forall|i: int, j: int| 0 <= i < j < after.len() implies spec_less(
            (#[trigger] after[i]).pattern,
            (#[trigger] after[j]).pattern,
        ) by {
            if j < at {
                assert(after[i] == sorted[i] && after[j] == sorted[j]);
            } else if j == at {
                assert(after[i] == sorted[i]);
            } else if i < at {
                assert(after[i] == sorted[i] && after[j] == sorted[j - 1]);
                crate::lists::lemma_less_transitive(sorted[i].pattern, pattern, sorted[at].pattern);
                if j - 1 > at {
                    crate::lists::lemma_less_transitive(
                        sorted[i].pattern,
                        sorted[at].pattern,
                        sorted[j - 1].pattern,
                    );
                }
            } else if i == at {
                assert(after[j] == sorted[j - 1]);
                if j - 1 > at {
                    crate::lists::lemma_less_transitive(
                        pattern,
                        sorted[at].pattern,
                        sorted[j - 1].pattern,
                    );
                }
            } else {
                assert(after[i] == sorted[i - 1] && after[j] == sorted[j - 1]);
            }
        }
    }
}

/// The substitutions apply in the order of their patterns, each pattern
/// once, in whatever order the caller gave them.
pub proof fn law_substitutions_apply_in_pattern_order(substitutions: Seq<SubstitutionView>)
    ensures
        spec_patterns_rise(spec_ordered(substitutions)),
    decreases substitutions.len(),
{
    if substitutions.len() > 0 {
        law_substitutions_apply_in_pattern_order(substitutions.drop_last());
        lemma_put_keeps_patterns_rising(
            spec_ordered(substitutions.drop_last()),
            substitutions.last(),
        );
    }
}

fn put(sorted: &mut Vec<Substitution>, substitution: Substitution)
    ensures
        views(final(sorted)@) == spec_put(views(old(sorted)@), substitution@),
{
    let ghost before = views(sorted@);
    let mut at: usize = 0;
    while at < sorted.len() && crate::lists::less(
        sorted[at].pattern.as_str(),
        substitution.pattern.as_str(),
    )
        invariant
            at <= sorted.len(),
            before == views(sorted@),
            forall|k: int|
                0 <= k < at ==> spec_less((#[trigger] before[k]).pattern, substitution@.pattern),
        decreases sorted.len() - at,
    {
        assert(before[at as int] == sorted@[at as int]@);
        at += 1;
    }
    proof {
        if at < sorted.len() {
            assert(before[at as int] == sorted@[at as int]@);
        }
        lemma_place_is(before, substitution@.pattern, at as int);
    }
    if at < sorted.len() && str_eq(sorted[at].pattern.as_str(), substitution.pattern.as_str()) {
        sorted.set(at, substitution);
        assert(views(sorted@) =~= before.update(at as int, substitution@));
    } else {
        sorted.insert(at, substitution);
        assert(views(sorted@) =~= before.insert(at as int, substitution@));
    }
}

/// The caller's substitutions, one for each pattern, in the order of the
/// patterns.
pub fn ordered(substitutions: &Vec<Substitution>) -> (out: Vec<Substitution>)
    ensures
        views(out@) == spec_ordered(views(substitutions@)),
{
    let mut out: Vec<Substitution> = Vec::new();
    let ghost all = views(substitutions@);
    let mut i: usize = 0;
    proof {
        assert(all.take(0) =~= Seq::<SubstitutionView>::empty());
        assert(views(out@) =~= Seq::<SubstitutionView>::empty());
    }
    while i < substitutions.len()
        invariant
            i <= substitutions.len(),
            all == views(substitutions@),
            views(out@) == spec_ordered(all.take(i as int)),
        decreases substitutions.len() - i,
    {
        proof {
            assert(all.take(i + 1).drop_last() =~= all.take(i as int));
            assert(all.take(i + 1).last() == substitutions@[i as int]@);
        }
        put(
            &mut out,
            Substitution {
                pattern: substitutions[i].pattern.clone(),
                replacement: substitutions[i].replacement.clone(),
            },
        );
        i += 1;
    }
    proof {
        assert(all.take(i as int) =~= all);
    }
    out
}

/// Makes a command concrete.
pub fn instantiate(command: &Command, base: &str, substitutions: &Vec<Substitution>) -> (out:
    Command)
    ensures
        out@ == spec_instantiate(command@, base@, views(substitutions@)),
{
    let mut out = command.replace("this", base);
    let ghost start = out@;
    let ghost all = views(substitutions@);
    let mut i: usize = 0;
    assert(all.take(0) =~= Seq::<SubstitutionView>::empty());
    while i < substitutions.len()
        invariant
            i <= substitutions.len(),
            all == views(substitutions@),
            out@ == spec_substitute(start, all.take(i as int)),
        decreases substitutions.len() - i,
    {
        proof {
            assert(all.take(i + 1).drop_last() =~= all.take(i as int));
            assert(all.take(i + 1).last() == substitutions@[i as int]@);
        }
        out = out.replace(substitutions[i].pattern.as_str(), substitutions[i].replacement.as_str());
        i += 1;
    }
    assert(all.take(i as int) =~= all);
    out
}

/// The call that a command stands for.
pub fn resolve(command: Command) -> (out: Result<ProxyCall, ActionError>)
    ensures
        out is Ok <==> spec_resolve(command@) is Ok,
        out matches Ok(call) ==> call@ == spec_resolve(command@)->Ok_0,
        out matches Err(e) ==> e@ == spec_resolve(command@)->Err_0,
{
    if str_eq(command.action.as_str(), "addLink") {
        Ok(
            ProxyCall::AddLink {
                source: command.source,
                target: command.target,
                predicate: command.predicate,
                status: command.status,
            },
        )
    } else if str_eq(command.action.as_str(), "removeLink") {
        Err(ActionError::RemoveLinkUnimplemented)
    } else if str_eq(command.action.as_str(), "setSingleTarget") {
        match command.predicate {
            Some(predicate) => Ok(
                ProxyCall::SetSingleTarget {
                    source: command.source,
                    predicate,
                    target: command.target,
                },
            ),
            None => Err(ActionError::MissingPredicate),
        }
    } else {
        Err(ActionError::UnknownAction(command.action))
    }
}

/// Plans the calls for commands, taken in order.
pub fn plan(commands: &Vec<Command>, base: &str, substitutions: &Vec<Substitution>) -> (out:
    ActionPlan)
    ensures
        out@ == spec_plan(views(commands@), base@, views(substitutions@)),
{
    let mut calls: Vec<ProxyCall> = Vec::new();
    let ghost all = views(commands@);
    let ghost subs = views(substitutions@);
    let mut i: usize = 0;
    proof {
        assert(all.skip(0) =~= all);
        assert(views(calls@) =~= Seq::<ProxyCallView>::empty());
        assert(Seq::<ProxyCallView>::empty() + spec_plan(all, base@, subs).calls =~= spec_plan(
            all,
            base@,
            subs,
        ).calls);
    }
    while i < commands.len()
        invariant
            i <= commands.len(),
            all == views(commands@),
            subs == views(substitutions@),
            spec_plan(all, base@, subs) == (ActionPlanView {
                calls: views(calls@) + spec_plan(all.skip(i as int), base@, subs).calls,
                failure: spec_plan(all.skip(i as int), base@, subs).failure,
            }),
        decreases commands.len() - i,
    {
        let ghost tail = all.skip(i as int);
        proof {
            assert(tail[0] == commands@[i as int]@);
            assert(tail.skip(1) =~= all.skip(i + 1));
        }
        let concrete = instantiate(&commands[i], base, substitutions);
        match resolve(concrete) {
            Ok(call) => {
                proof {
                    let before = views(calls@);
                    let rest = spec_plan(tail.skip(1), base@, subs);
                    assert(views(calls@.push(call)) =~= before.push(call@));
                    assert(before + (seq![call@] + rest.calls) =~= before.push(call@) + rest.calls);
                }
                calls.push(call);
            },
            Err(e) => {
                proof {
                    assert(views(calls@) + Seq::<ProxyCallView>::empty() =~= views(calls@));
                }
                return ActionPlan { calls, failure: Some(e) };
            },
        }
        i += 1;
    }
    proof {
        assert(all.skip(i as int) =~= Seq::<CommandView>::empty());
        assert(views(calls@) + Seq::<ProxyCallView>::empty() =~= views(calls@));
    }
    ActionPlan { calls, failure: None }
}

} // verus!

//! The fact compiler: from decorated links to the clauses of a fact base.

use crate::literal::{spec_literal, Literal};
use crate::perspectives::library::{
    ASSERT_LINK, DECLARATIONS, JSON_PARSER, PAGINATION, PREAMBLE, TEXT_PREDICATES,
};
use crate::text::{
    decimal, spec_decimal, spec_split, split, str_eq, views,
};
use crate::types::{
    spec_expression_ref, DecoratedLinkExpression, DecoratedLinkExpressionView, ExpressionRef,
    ExpressionRefView, Link, LinkView,
};
use vstd::pervasive::unreached;
use vstd::prelude::*;
use vstd::string::*;

verus! {

/// The source of every link that declares social DNA.
pub const SELF: &'static str = "ad4m://self";

/// The predicate of a link that carries the code of a subject class.
pub const SDNA: &'static str = "ad4m://sdna";

/// The predicate of a link, the empty text where it has none.
pub open spec fn spec_predicate_text(link: LinkView) -> Seq<char> {
    match link.predicate {
        Some(p) => p,
        None => Seq::empty(),
    }
}

/// The `triple/3` fact of a link, without the closing full stop.
pub open spec fn spec_triple_fact(link: LinkView) -> Seq<char> {
    "triple(\""@ + link.source + "\", \""@ + spec_predicate_text(link) + "\", \""@ + link.target
        + "\")"@
}

/// The five-place fact of a link under the predicate `name`, without the
/// closing full stop: source, predicate, target, the timestamp in
/// milliseconds, and the author.
pub open spec fn spec_link_fact(
    name: Seq<char>,
    link: DecoratedLinkExpressionView,
    millis: i64,
) -> Seq<char> {
    name + "(\""@ + link.data.source + "\", \""@ + spec_predicate_text(link.data) + "\", \""@
        + link.data.target + "\", "@ + spec_decimal(millis as int) + ", \""@ + link.author
        + "\")"@
}

/// Whether a link declares social DNA: its source is the perspective itself
/// and its predicate names a subject class, a flow or custom social DNA.
pub open spec fn spec_is_sdna_link(link: LinkView) -> bool {
    &&& link.source == SELF@
    &&& {
        ||| spec_predicate_text(link) == "ad4m://has_subject_class"@
        ||| spec_predicate_text(link) == "ad4m://has_flow"@
        ||| spec_predicate_text(link) == "ad4m://has_custom_sdna"@
    }
}

/// The milliseconds since the Unix epoch of an RFC 3339 date and time, none
/// where the text is no such date and time.
pub uninterp spec fn rfc3339_millis(timestamp: Seq<char>) -> Option<i64>;

/// Reads an RFC 3339 timestamp as milliseconds since the Unix epoch.
///
/// Trusted: wraps `chrono::DateTime::parse_from_rfc3339` and, on the parsed
/// instant, `DateTime::timestamp_millis`. Both depend on the text alone, so
/// the contract only names the result.
#[verifier::external_body]
fn parse_rfc3339_millis(timestamp: &str) -> (out: Option<i64>)
    ensures
        out == rfc3339_millis(timestamp@),
{
    match chrono::DateTime::parse_from_rfc3339(timestamp) {
        Ok(instant) => Some(instant.timestamp_millis()),
        Err(_) => None,
    }
}

fn append_predicate(out: &mut String, link: &Link)
    ensures
        final(out)@ == old(out)@ + spec_predicate_text(link@),
{
    match &link.predicate {
        Some(p) => {
            out.append(p.as_str());
        },
        None => {
            assert(out@ + Seq::<char>::empty() =~= out@);
        },
    }
}

/// The `triple/3` fact of a link, without the closing full stop.
pub fn triple_fact(l: &DecoratedLinkExpression) -> (out: String)
    ensures
        out@ == spec_triple_fact(l@.data),
{
    let mut out = String::from_str("triple(\"");
    out.append(l.data.source.as_str());
    out.append("\", \"");
    append_predicate(&mut out, &l.data);
    out.append("\", \"");
    out.append(l.data.target.as_str());
    out.append("\")");
    out
}

/// The five-place fact of a link under the predicate `predicate_name`, with
/// the given timestamp in milliseconds.
pub fn link_fact_at(predicate_name: &str, l: &DecoratedLinkExpression, millis: i64) -> (out: String)
    ensures
        out@ == spec_link_fact(predicate_name@, l@, millis),
{
    let mut out = String::from_str(predicate_name);
    out.append("(\"");
    out.append(l.data.source.as_str());
    out.append("\", \"");
    append_predicate(&mut out, &l.data);
    out.append("\", \"");
    out.append(l.data.target.as_str());
    out.append("\", ");
    let stamp = decimal(millis);
    out.append(stamp.as_str());
    out.append(", \"");
    out.append(l.author.as_str());
    out.append("\")");
    out
}

/// The five-place fact of a link under the predicate `predicate_name`. The
/// link's timestamp must be an RFC 3339 date and time.
pub fn generic_link_fact(predicate_name: &str, l: &DecoratedLinkExpression) -> (out: String)
    requires
        rfc3339_millis(l.timestamp@) is Some,
    ensures
        out@ == spec_link_fact(predicate_name@, l@, rfc3339_millis(l.timestamp@)->0),
{
    match parse_rfc3339_millis(l.timestamp.as_str()) {
        Some(millis) => link_fact_at(predicate_name, l, millis),
        None => unreached(),
    }
}

/// The `link/5` fact of a link. The link's timestamp must be an RFC 3339
/// date and time.
pub fn link_fact(l: &DecoratedLinkExpression) -> (out: String)
    requires
        rfc3339_millis(l.timestamp@) is Some,
    ensures
        out@ == spec_link_fact("link"@, l@, rfc3339_millis(l.timestamp@)->0),
{
    generic_link_fact("link", l)
}

/// Whether a text is an RFC 3339 date and time.
pub fn is_rfc3339(timestamp: &str) -> (out: bool)
    ensures
        out == rfc3339_millis(timestamp@) is Some,
{
    parse_rfc3339_millis(timestamp).is_some()
}

/// The five-place fact of a link, or none where its timestamp is no RFC 3339
/// date and time.
pub fn try_generic_link_fact(predicate_name: &str, l: &DecoratedLinkExpression) -> (out: Option<
    String,
>)
    ensures
        out is Some <==> rfc3339_millis(l.timestamp@) is Some,
        out matches Some(fact) ==> fact@ == spec_link_fact(
            predicate_name@,
            l@,
            rfc3339_millis(l.timestamp@)->0,
        ),
{
    if is_rfc3339(l.timestamp.as_str()) {
        Some(generic_link_fact(predicate_name, l))
    } else {
        None
    }
}

/// The `link/5` fact of a link, or none where its timestamp is no RFC 3339
/// date and time.
pub fn try_link_fact(l: &DecoratedLinkExpression) -> (out: Option<String>)
    ensures
        out is Some <==> rfc3339_millis(l.timestamp@) is Some,
        out matches Some(fact) ==> fact@ == spec_link_fact(
            "link"@,
            l@,
            rfc3339_millis(l.timestamp@)->0,
        ),
{
    if is_rfc3339(l.timestamp.as_str()) {
        Some(link_fact(l))
    } else {
        None
    }
}

/// Whether a link declares social DNA.
pub fn is_sdna_link(link: &Link) -> (out: bool)
    ensures
        out == spec_is_sdna_link(link@),
{
    if !str_eq(link.source.as_str(), SELF) {
        return false;
    }
    match &link.predicate {
        Some(p) => {
            assert(spec_predicate_text(link@) == p@);
            str_eq(p.as_str(), "ad4m://has_subject_class") || str_eq(p.as_str(), "ad4m://has_flow")
                || str_eq(p.as_str(), "ad4m://has_custom_sdna")
        },
        None => {
            proof {
                reveal_strlit("ad4m://has_subject_class");
                reveal_strlit("ad4m://has_flow");
                reveal_strlit("ad4m://has_custom_sdna");
                assert(spec_predicate_text(link@).len() == 0);
            }
            false
        },
    }
}



/// The definition of a subject class: its name, its code, and the timestamp
/// of the link that defined it.
#[derive(Debug, PartialEq, Eq)]
pub struct SubjectClass {
    pub name: String,
    pub code: String,
    pub timestamp: String,
}

/// The mathematical value of a [`SubjectClass`].
pub struct SubjectClassView {
    pub name: Seq<char>,
    pub code: Seq<char>,
    pub timestamp: Seq<char>,
}

impl View for SubjectClass {
    type V = SubjectClassView;

    open spec fn view(&self) -> SubjectClassView {
        SubjectClassView { name: self.name@, code: self.code@, timestamp: self.timestamp@ }
    }
}

/// The authors whose links may define classes: the local agent and, where
/// there is one, the author of the neighbourhood.
pub open spec fn spec_trusted_author(
    author: Seq<char>,
    agent_did: Seq<char>,
    neighbourhood_author: Option<Seq<char>>,
) -> bool {
    author == agent_did || neighbourhood_author == Some(author)
}

/// The class definition that a link contributes: the link's proof is valid,
/// its author is trusted, its predicate is [`SDNA`], and its source and
/// target are literal URLs that decode, to the name and to the code.
pub open spec fn spec_definition(
    link: DecoratedLinkExpressionView,
    agent_did: Seq<char>,
    neighbourhood_author: Option<Seq<char>>,
) -> Option<SubjectClassView> {
    if link.proof.valid == Some(true) && spec_trusted_author(
        link.author,
        agent_did,
        neighbourhood_author,
    ) && link.data.predicate == Some(SDNA@) && spec_literal(link.data.source) is Some
        && spec_literal(link.data.target) is Some {
        Some(
            SubjectClassView {
                name: spec_literal(link.data.source)->0.value,
                code: spec_literal(link.data.target)->0.value,
                timestamp: link.timestamp,
            },
        )
    } else {
        None
    }
}

/// Whether a definition stamped `current` replaces one stamped `existing`:
/// both timestamps are RFC 3339 dates and times, and `current` is the later
/// instant. Where either timestamp does not read as one no comparison is
/// possible, and the definition seen first stays; so it does between equal
/// instants.
pub open spec fn spec_supersedes(existing: Seq<char>, current: Seq<char>) -> bool {
    match (rfc3339_millis(existing), rfc3339_millis(current)) {
        (Some(e), Some(c)) => c > e,
        _ => false,
    }
}

/// The position of the first class called `name`, or the number of classes
/// if none is.
pub open spec fn spec_class_index(classes: Seq<SubjectClassView>, name: Seq<char>) -> int
    decreases classes.len(),
{
    if classes.len() == 0 {
        0
    } else if classes[0].name == name {
        0
    } else {
        1 + spec_class_index(classes.skip(1), name)
    }
}

/// The classes after one more definition was seen. A new name is added at
/// the end; a known name keeps its place, and its definition is replaced
/// only by one that supersedes it.
pub open spec fn spec_record(
    classes: Seq<SubjectClassView>,
    definition: SubjectClassView,
) -> Seq<SubjectClassView> {
    let at = spec_class_index(classes, definition.name);
    if 0 <= at < classes.len() {
        if spec_supersedes(classes[at].timestamp, definition.timestamp) {
            classes.update(at, definition)
        } else {
            classes
        }
    } else {
        classes.push(definition)
    }
}

/// The classes that a sequence of links defines, the links taken in order.
pub open spec fn spec_classes(
    links: Seq<DecoratedLinkExpressionView>,
    agent_did: Seq<char>,
    neighbourhood_author: Option<Seq<char>>,
) -> Seq<SubjectClassView>
    decreases links.len(),
{
    if links.len() == 0 {
        Seq::empty()
    } else {
        let before = spec_classes(links.drop_last(), agent_did, neighbourhood_author);
        match spec_definition(links.last(), agent_did, neighbourhood_author) {
            Some(definition) => spec_record(before, definition),
            None => before,
        }
    }
}

/// The position of a class lies within the table or just behind it; no
/// earlier class has the name, and the class at the position has it.
pub proof fn lemma_class_index(classes: Seq<SubjectClassView>, name: Seq<char>)
    ensures
        0 <= spec_class_index(classes, name) <= classes.len(),
        forall|k: int| 0 <= k < spec_class_index(classes, name) ==> classes[k].name != name,
        spec_class_index(classes, name) < classes.len() ==> classes[spec_class_index(
            classes,
            name,
        )].name == name,
    decreases classes.len(),
{
    if classes.len() > 0 && classes[0].name != name {
        lemma_class_index(classes.skip(1), name);
        assert forall|k: int| 0 <= k < spec_class_index(classes, name) implies classes[k].name
            != name by {
            if k > 0 {
                assert(classes[k] == classes.skip(1)[k - 1]);
            }
        }
    }
}

/// The position is the first one whose class has the name.
pub proof fn lemma_class_index_is(classes: Seq<SubjectClassView>, name: Seq<char>, at: int)
    requires
        0 <= at <= classes.len(),
        forall|k: int| 0 <= k < at ==> classes[k].name != name,
        at < classes.len() ==> classes[at].name == name,
    ensures
        spec_class_index(classes, name) == at,
{
    lemma_class_index(classes, name);
}

fn find_class(classes: &Vec<SubjectClass>, name: &str) -> (at: usize)
    ensures
        at == spec_class_index(views(classes@), name@),
        at <= classes.len(),
{
    let mut i: usize = 0;
    while i < classes.len()
        invariant
            i <= classes.len(),
            forall|k: int| 0 <= k < i ==> views(classes@)[k].name != name@,
        decreases classes.len() - i,
    {
        if str_eq(classes[i].name.as_str(), name) {
            proof {
                assert(views(classes@)[i as int].name == name@);
                lemma_class_index_is(views(classes@), name@, i as int);
            }
            return i;
        }
        i += 1;
    }
    proof {
        lemma_class_index_is(views(classes@), name@, i as int);
    }
    i
}

fn supersedes(existing: &str, current: &str) -> (out: bool)
    ensures
        out == spec_supersedes(existing@, current@),
{
    match (parse_rfc3339_millis(existing), parse_rfc3339_millis(current)) {
        (Some(e), Some(c)) => c > e,
        _ => false,
    }
}

/// Records one more definition in the class table.
pub fn record_class(classes: &mut Vec<SubjectClass>, definition: SubjectClass)
    ensures
        views(final(classes)@) == spec_record(views(old(classes)@), definition@),
{
    let at = find_class(classes, definition.name.as_str());
    if at < classes.len() {
        assert(views(classes@)[at as int] == classes@[at as int]@);
        if supersedes(classes[at].timestamp.as_str(), definition.timestamp.as_str()) {
            let ghost before = classes@;
            classes.set(at, definition);
            assert(views(classes@) =~= views(before).update(at as int, definition@));
        }
    } else {
        let ghost before = classes@;
        classes.push(definition);
        assert(views(classes@) =~= views(before).push(definition@));
    }
}

fn trusted_author(author: &str, agent_did: &str, neighbourhood_author: &Option<String>) -> (out:
    bool)
    ensures
        out == spec_trusted_author(author@, agent_did@, crate::text::opt_view(*neighbourhood_author)),
{
    if str_eq(author, agent_did) {
        return true;
    }
    match neighbourhood_author {
        Some(other) => str_eq(other.as_str(), author),
        None => false,
    }
}

/// The class definition that a link contributes, if it contributes one.
pub fn definition_of(
    link: &DecoratedLinkExpression,
    agent_did: &str,
    neighbourhood_author: &Option<String>,
) -> (out: Option<SubjectClass>)
    ensures
        out is Some <==> spec_definition(
            link@,
            agent_did@,
            crate::text::opt_view(*neighbourhood_author),
        ) is Some,
        out matches Some(definition) ==> definition@ == spec_definition(
            link@,
            agent_did@,
            crate::text::opt_view(*neighbourhood_author),
        )->0,
{
    let valid = match link.proof.valid {
        Some(v) => v,
        None => false,
    };
    if !valid || !trusted_author(link.author.as_str(), agent_did, neighbourhood_author) {
        return None;
    }
    let is_definition = match &link.data.predicate {
        Some(p) => str_eq(p.as_str(), SDNA),
        None => false,
    };
    if !is_definition {
        return None;
    }
    let name = match Literal::from_url(link.data.source.as_str()) {
        Some(literal) => literal.value,
        None => {
            return None;
        },
    };
    let code = match Literal::from_url(link.data.target.as_str()) {
        Some(literal) => literal.value,
        None => {
            return None;
        },
    };
    Some(SubjectClass { name, code, timestamp: link.timestamp.clone() })
}

/// The classes that the links define, the links taken in order.
pub fn subject_classes(
    all_links: &Vec<DecoratedLinkExpression>,
    agent_did: &str,
    neighbourhood_author: &Option<String>,
) -> (classes: Vec<SubjectClass>)
    ensures
        views(classes@) == spec_classes(
            views(all_links@),
            agent_did@,
            crate::text::opt_view(*neighbourhood_author),
        ),
{
    let mut classes: Vec<SubjectClass> = Vec::new();
    let mut i: usize = 0;
    let ghost links = views(all_links@);
    let ghost author = crate::text::opt_view(*neighbourhood_author);
    proof {
        assert(links.take(0) =~= Seq::<DecoratedLinkExpressionView>::empty());
        assert(views(classes@) =~= Seq::<SubjectClassView>::empty());
    }
    while i < all_links.len()
        invariant
            i <= all_links.len(),
            links == views(all_links@),
            author == crate::text::opt_view(*neighbourhood_author),
            views(classes@) == spec_classes(links.take(i as int), agent_did@, author),
        decreases all_links.len() - i,
    {
        proof {
            assert(links.take(i + 1).drop_last() =~= links.take(i as int));
            assert(links.take(i + 1).last() == all_links@[i as int]@);
        }
        match definition_of(&all_links[i], agent_did, neighbourhood_author) {
            Some(definition) => {
                record_class(&mut classes, definition);
            },
            None => {},
        }
        i += 1;
    }
    proof {
        assert(links.take(i as int) =~= links);
    }
    classes
}



/// The `triple/3` clauses of the links that declare no social DNA, in order.
pub open spec fn spec_triple_lines(links: Seq<DecoratedLinkExpressionView>) -> Seq<Seq<char>>
    decreases links.len(),
{
    if links.len() == 0 {
        Seq::empty()
    } else if spec_is_sdna_link(links.last().data) {
        spec_triple_lines(links.drop_last())
    } else {
        spec_triple_lines(links.drop_last()).push(spec_triple_fact(links.last().data) + "."@)
    }
}

/// The `link/5` clauses of the links that declare no social DNA, in order,
/// the link at position `i` stamped with `stamps[i]`.
pub open spec fn spec_link_lines(
    links: Seq<DecoratedLinkExpressionView>,
    stamps: Seq<i64>,
) -> Seq<Seq<char>>
    decreases links.len(),
{
    if links.len() == 0 {
        Seq::empty()
    } else if spec_is_sdna_link(links.last().data) {
        spec_link_lines(links.drop_last(), stamps)
    } else {
        spec_link_lines(links.drop_last(), stamps).push(
            spec_link_fact("link"@, links.last(), stamps[links.len() - 1]) + "."@,
        )
    }
}

/// The lines of the code of every class, class by class.
pub open spec fn spec_class_lines(classes: Seq<SubjectClassView>) -> Seq<Seq<char>>
    decreases classes.len(),
{
    if classes.len() == 0 {
        Seq::empty()
    } else {
        spec_class_lines(classes.drop_last()) + spec_split(classes.last().code, '\n')
    }
}

/// The lines of the four library blocks.
pub open spec fn spec_library_lines() -> Seq<Seq<char>> {
    spec_split(PAGINATION@, '\n') + spec_split(TEXT_PREDICATES@, '\n') + spec_split(
        JSON_PARSER@,
        '\n',
    ) + spec_split(ASSERT_LINK@, '\n')
}

/// The clause that names the local agent.
pub open spec fn spec_agent_line(agent_did: Seq<char>) -> Seq<char> {
    "agent_did(\""@ + agent_did + "\")."@
}

/// The lines of a fact base up to the clause that names the local agent,
/// that clause being the last of them.
pub open spec fn spec_lines_up_to_agent(
    links: Seq<DecoratedLinkExpressionView>,
    stamps: Seq<i64>,
    agent_did: Seq<char>,
) -> Seq<Seq<char>> {
    spec_split(PREAMBLE@, '\n') + spec_triple_lines(links) + spec_link_lines(links, stamps)
        + spec_split(DECLARATIONS@, '\n') + spec_library_lines() + seq![spec_agent_line(agent_did)]
}

/// The fact base of a set of links: the preamble, the `triple/3` and the
/// `link/5` clauses of the links that declare no social DNA, the
/// declarations, the library, the local agent, and the code of the classes
/// that the links define.
pub open spec fn spec_engine_facts(
    links: Seq<DecoratedLinkExpressionView>,
    stamps: Seq<i64>,
    agent_did: Seq<char>,
    neighbourhood_author: Option<Seq<char>>,
) -> Seq<Seq<char>> {
    spec_lines_up_to_agent(links, stamps, agent_did) + spec_class_lines(
        spec_classes(links, agent_did, neighbourhood_author),
    )
}

/// Whether every link that declares no social DNA carries an RFC 3339
/// timestamp.
pub open spec fn spec_timestamps_readable(links: Seq<DecoratedLinkExpressionView>) -> bool {
    forall|i: int|
        0 <= i < links.len() && !spec_is_sdna_link((#[trigger] links[i]).data) ==> rfc3339_millis(
            links[i].timestamp,
        ) is Some
}

/// The timestamp in milliseconds of each link; zero for a link that
/// declares social DNA, whose timestamp no clause shows.
pub open spec fn spec_stamps(links: Seq<DecoratedLinkExpressionView>) -> Seq<i64> {
    Seq::new(
        links.len(),
        |i: int|
            if spec_is_sdna_link(links[i].data) {
                0i64
            } else {
                match rfc3339_millis(links[i].timestamp) {
                    Some(millis) => millis,
                    None => 0i64,
                }
            },
    )
}

fn push_lines(lines: &mut Vec<String>, text: &str)
    ensures
        views(final(lines)@) == views(old(lines)@) + spec_split(text@, '\n'),
{
    let mut pieces = split(text, '\n');
    let ghost before = lines@;
    let ghost added = pieces@;
    lines.append(&mut pieces);
    assert(views(before + added) =~= views(before) + views(added));
}

fn push_line(lines: &mut Vec<String>, line: String)
    ensures
        views(final(lines)@) == views(old(lines)@).push(line@),
{
    let ghost before = lines@;
    lines.push(line);
    assert(views(before.push(line)) =~= views(before).push(line@));
}

/// Compiles the fact base of a set of links, the link at position `i`
/// stamped with `stamps[i]` milliseconds.
pub fn engine_facts(
    all_links: &Vec<DecoratedLinkExpression>,
    stamps: &Vec<i64>,
    neighbourhood_author: &Option<String>,
    agent_did: &str,
) -> (lines: Vec<String>)
    requires
        stamps.len() == all_links.len(),
    ensures
        views(lines@) == spec_engine_facts(
            views(all_links@),
            stamps@,
            agent_did@,
            crate::text::opt_view(*neighbourhood_author),
        ),
{
    let ghost links = views(all_links@);
    let mut lines: Vec<String> = Vec::new();
    assert(views(lines@) =~= Seq::<Seq<char>>::empty());
    push_lines(&mut lines, PREAMBLE);
    let ghost head = views(lines@);
    assert(head =~= spec_split(PREAMBLE@, '\n'));

    let mut i: usize = 0;
    proof {
        assert(links.take(0) =~= Seq::<DecoratedLinkExpressionView>::empty());
        assert(head + spec_triple_lines(links.take(0)) =~= head);
    }
    while i < all_links.len()
        invariant
            i <= all_links.len(),
            links == views(all_links@),
            views(lines@) == head + spec_triple_lines(links.take(i as int)),
        decreases all_links.len() - i,
    {
        proof {
            assert(links.take(i + 1).drop_last() =~= links.take(i as int));
            assert(links.take(i + 1).last() == all_links@[i as int]@);
        }
        if !is_sdna_link(&all_links[i].data) {
            let mut line = triple_fact(&all_links[i]);
            line.append(".");
            let ghost before = views(lines@);
            push_line(&mut lines, line);
            assert(before.push(line@) =~= head + spec_triple_lines(links.take(i as int)).push(
                line@,
            ));
        }
        i += 1;
    }
    proof {
        assert(links.take(i as int) =~= links);
    }
    let ghost with_triples = views(lines@);

    let mut j: usize = 0;
    proof {
        assert(with_triples + spec_link_lines(links.take(0), stamps@) =~= with_triples);
    }
    while j < all_links.len()
        invariant
            j <= all_links.len(),
            stamps.len() == all_links.len(),
            links == views(all_links@),
            views(lines@) == with_triples + spec_link_lines(links.take(j as int), stamps@),
        decreases all_links.len() - j,
    {
        proof {
            assert(links.take(j + 1).drop_last() =~= links.take(j as int));
            assert(links.take(j + 1).last() == all_links@[j as int]@);
        }
        if !is_sdna_link(&all_links[j].data) {
            let mut line = link_fact_at("link", &all_links[j], stamps[j]);
            line.append(".");
            let ghost before = views(lines@);
            push_line(&mut lines, line);
            assert(before.push(line@) =~= with_triples + spec_link_lines(
                links.take(j as int),
                stamps@,
            ).push(line@));
        }
        j += 1;
    }
    proof {
        assert(links.take(j as int) =~= links);
    }

    push_lines(&mut lines, DECLARATIONS);
    push_lines(&mut lines, PAGINATION);
    push_lines(&mut lines, TEXT_PREDICATES);
    push_lines(&mut lines, JSON_PARSER);
    push_lines(&mut lines, ASSERT_LINK);

    let mut agent_line = String::from_str("agent_did(\"");
    agent_line.append(agent_did);
    agent_line.append("\").");
    push_line(&mut lines, agent_line);
    let ghost fixed = views(lines@);
    assert(fixed =~= spec_lines_up_to_agent(links, stamps@, agent_did@));

    let classes = subject_classes(all_links, agent_did, neighbourhood_author);
    let ghost table = views(classes@);
    let mut k: usize = 0;
    proof {
        assert(table.take(0) =~= Seq::<SubjectClassView>::empty());
        assert(fixed + spec_class_lines(table.take(0)) =~= fixed);
    }
    while k < classes.len()
        invariant
            k <= classes.len(),
            table == views(classes@),
            views(lines@) == fixed + spec_class_lines(table.take(k as int)),
        decreases classes.len() - k,
    {
        proof {
            assert(table.take(k + 1).drop_last() =~= table.take(k as int));
            assert(table.take(k + 1).last() == classes@[k as int]@);
        }
        let ghost before = views(lines@);
        push_lines(&mut lines, classes[k].code.as_str());
        assert(before + spec_split(classes@[k as int]@.code, '\n') =~= fixed + (spec_class_lines(
            table.take(k as int),
        ) + spec_split(classes@[k as int]@.code, '\n')));
        k += 1;
    }
    proof {
        assert(table.take(k as int) =~= table);
    }
    lines
}

/// The timestamps of the links in milliseconds, or none where a link that
/// declares no social DNA carries a timestamp that is no RFC 3339 date and
/// time.
pub fn read_stamps(all_links: &Vec<DecoratedLinkExpression>) -> (out: Option<Vec<i64>>)
    ensures
        out is Some <==> spec_timestamps_readable(views(all_links@)),
        out matches Some(stamps) ==> stamps@ == spec_stamps(views(all_links@)),
{
    let ghost links = views(all_links@);
    let mut stamps: Vec<i64> = Vec::new();
    let mut i: usize = 0;
    while i < all_links.len()
        invariant
            i <= all_links.len(),
            links == views(all_links@),
            stamps@.len() == i,
            forall|k: int| 0 <= k < i ==> stamps@[k] == spec_stamps(links)[k],
            forall|k: int|
                0 <= k < i && !spec_is_sdna_link((#[trigger] links[k]).data) ==> rfc3339_millis(
                    links[k].timestamp,
                ) is Some,
        decreases all_links.len() - i,
    {
        assert(links[i as int] == all_links@[i as int]@);
        if is_sdna_link(&all_links[i].data) {
            stamps.push(0);
        } else {
            match parse_rfc3339_millis(all_links[i].timestamp.as_str()) {
                Some(millis) => {
                    stamps.push(millis);
                },
                None => {
                    return None;
                },
            }
        }
        i += 1;
    }
    assert(stamps@ =~= spec_stamps(links));
    Some(stamps)
}

/// Whether every link that declares no social DNA carries an RFC 3339
/// timestamp.
pub fn timestamps_readable(all_links: &Vec<DecoratedLinkExpression>) -> (out: bool)
    ensures
        out == spec_timestamps_readable(views(all_links@)),
{
    read_stamps(all_links).is_some()
}

/// Compiles the fact base of a set of links. Every link that declares no
/// social DNA must carry an RFC 3339 timestamp.
pub fn init_engine_facts(
    all_links: Vec<DecoratedLinkExpression>,
    neighbourhood_author: Option<String>,
    agent_did: &str,
) -> (lines: Vec<String>)
    requires
        spec_timestamps_readable(views(all_links@)),
    ensures
        views(lines@) == spec_engine_facts(
            views(all_links@),
            spec_stamps(views(all_links@)),
            agent_did@,
            crate::text::opt_view(neighbourhood_author),
        ),
{
    match read_stamps(&all_links) {
        Some(stamps) => engine_facts(&all_links, &stamps, &neighbourhood_author, agent_did),
        None => unreached(),
    }
}

/// Compiles the fact base of a set of links, or none where a link that
/// declares no social DNA carries a timestamp that is no RFC 3339 date and
/// time.
pub fn try_init_engine_facts(
    all_links: Vec<DecoratedLinkExpression>,
    neighbourhood_author: Option<String>,
    agent_did: &str,
) -> (out: Option<Vec<String>>)
    ensures
        out is Some <==> spec_timestamps_readable(views(all_links@)),
        out matches Some(lines) ==> views(lines@) == spec_engine_facts(
            views(all_links@),
            spec_stamps(views(all_links@)),
            agent_did@,
            crate::text::opt_view(neighbourhood_author),
        ),
{
    if timestamps_readable(&all_links) {
        Some(init_engine_facts(all_links, neighbourhood_author, agent_did))
    } else {
        None
    }
}

/// Of two definitions of one class whose timestamps are different instants,
/// the later one is the class, in whichever order their links come; the
/// code of the earlier one is discarded as a whole.
pub proof fn law_newer_definition_wins(
    first: DecoratedLinkExpressionView,
    second: DecoratedLinkExpressionView,
    stamps: Seq<i64>,
    agent_did: Seq<char>,
    neighbourhood_author: Option<Seq<char>>,
)
    requires
        spec_definition(first, agent_did, neighbourhood_author) is Some,
        spec_definition(second, agent_did, neighbourhood_author) is Some,
        spec_definition(first, agent_did, neighbourhood_author)->0.name == spec_definition(
            second,
            agent_did,
            neighbourhood_author,
        )->0.name,
        rfc3339_millis(first.timestamp) is Some,
        rfc3339_millis(second.timestamp) is Some,
        rfc3339_millis(first.timestamp)->0 != rfc3339_millis(second.timestamp)->0,
    ensures
        spec_classes(seq![first, second], agent_did, neighbourhood_author) == seq![
            if rfc3339_millis(second.timestamp)->0 > rfc3339_millis(first.timestamp)->0 {
                spec_definition(second, agent_did, neighbourhood_author)->0
            } else {
                spec_definition(first, agent_did, neighbourhood_author)->0
            },
        ],
        spec_class_lines(spec_classes(seq![first, second], agent_did, neighbourhood_author))
            == spec_split(
            if rfc3339_millis(second.timestamp)->0 > rfc3339_millis(first.timestamp)->0 {
                spec_definition(second, agent_did, neighbourhood_author)->0.code
            } else {
                spec_definition(first, agent_did, neighbourhood_author)->0.code
            },
            '\n',
        ),
        spec_engine_facts(seq![first, second], stamps, agent_did, neighbourhood_author)
            == spec_lines_up_to_agent(seq![first, second], stamps, agent_did) + spec_split(
            if rfc3339_millis(second.timestamp)->0 > rfc3339_millis(first.timestamp)->0 {
                spec_definition(second, agent_did, neighbourhood_author)->0.code
            } else {
                spec_definition(first, agent_did, neighbourhood_author)->0.code
            },
            '\n',
        ),
{
    let both = seq![first, second];
    let one = seq![first];
    let d1 = spec_definition(first, agent_did, neighbourhood_author)->0;
    let d2 = spec_definition(second, agent_did, neighbourhood_author)->0;
    assert(both.drop_last() =~= one);
    assert(one.drop_last() =~= Seq::<DecoratedLinkExpressionView>::empty());
    assert(spec_classes(one.drop_last(), agent_did, neighbourhood_author)
        =~= Seq::<SubjectClassView>::empty());
    let none = Seq::<SubjectClassView>::empty();
    assert(spec_class_index(none, d1.name) == 0);
    assert(spec_record(none, d1) =~= seq![d1]);
    assert(spec_classes(one, agent_did, neighbourhood_author) == seq![d1]);
    assert(spec_class_index(seq![d1], d2.name) == 0);
    let after = spec_record(seq![d1], d2);
    assert(after =~= seq![
        if rfc3339_millis(second.timestamp)->0 > rfc3339_millis(first.timestamp)->0 {
            d2
        } else {
            d1
        },
    ]);
    assert(after.drop_last() =~= Seq::<SubjectClassView>::empty());
    assert(spec_class_lines(after.drop_last()) =~= Seq::<Seq<char>>::empty());
    assert(spec_class_lines(after) =~= spec_split(after.last().code, '\n'));
}



/// The nodes after one more text was seen: a text that is not empty and not
/// yet among the nodes goes to their end.
pub open spec fn spec_add_node(nodes: Seq<Seq<char>>, text: Seq<char>) -> Seq<Seq<char>> {
    if text.len() == 0 || nodes.contains(text) {
        nodes
    } else {
        nodes.push(text)
    }
}

/// The nodes of a set of links: the sources, predicates and targets that
/// are not empty, each once, in the order in which they first occur.
pub open spec fn spec_nodes(links: Seq<DecoratedLinkExpressionView>) -> Seq<Seq<char>>
    decreases links.len(),
{
    if links.len() == 0 {
        Seq::empty()
    } else {
        let link = links.last().data;
        spec_add_node(
            spec_add_node(
                spec_add_node(spec_nodes(links.drop_last()), link.source),
                spec_predicate_text(link),
            ),
            link.target,
        )
    }
}

/// The expression that a node refers to. The nodes `true` and `false`
/// refer to none.
pub open spec fn spec_described(node: Seq<char>) -> Option<ExpressionRefView> {
    if node == "false"@ || node == "true"@ {
        None
    } else {
        spec_expression_ref(node)
    }
}

/// The clause that gives the address of the language of a node.
pub open spec fn spec_language_address_line(node: Seq<char>, reference: ExpressionRefView) -> Seq<
    char,
> {
    "languageAddress(\""@ + node + "\", \""@ + reference.language.address + "\")."@
}

/// The clause that gives the name of the language of a node; a language
/// whose name is not known is called `unknown`.
pub open spec fn spec_language_name_line(node: Seq<char>, reference: ExpressionRefView) -> Seq<
    char,
> {
    "languageName(\""@ + node + "\", \""@ + (if reference.language.name.len() == 0 {
        "unknown"@
    } else {
        reference.language.name
    }) + "\")."@
}

/// The clause that gives the address of a node within its language.
pub open spec fn spec_expression_address_line(
    node: Seq<char>,
    reference: ExpressionRefView,
) -> Seq<char> {
    "expressionAddress(\""@ + node + "\", \""@ + reference.expression + "\")."@
}

/// The clauses of one kind for the nodes that refer to an expression, in
/// the order of the nodes.
pub open spec fn spec_node_lines(
    nodes: Seq<Seq<char>>,
    line: spec_fn(Seq<char>, ExpressionRefView) -> Seq<char>,
) -> Seq<Seq<char>>
    decreases nodes.len(),
{
    if nodes.len() == 0 {
        Seq::empty()
    } else {
        match spec_described(nodes.last()) {
            Some(reference) => spec_node_lines(nodes.drop_last(), line).push(
                line(nodes.last(), reference),
            ),
            None => spec_node_lines(nodes.drop_last(), line),
        }
    }
}

/// The facts about the nodes of a set of links: for every node that refers
/// to an expression, the address and the name of its language and its
/// address within the language; all addresses first, then all names, then
/// all expression addresses, each part under its declaration.
pub open spec fn spec_node_facts(links: Seq<DecoratedLinkExpressionView>) -> Seq<Seq<char>> {
    let nodes = spec_nodes(links);
    seq![":- discontiguous(languageAddress/2)."@] + spec_node_lines(
        nodes,
        |n: Seq<char>, r: ExpressionRefView| spec_language_address_line(n, r),
    ) + seq![":- discontiguous(languageName/2)."@] + spec_node_lines(
        nodes,
        |n: Seq<char>, r: ExpressionRefView| spec_language_name_line(n, r),
    ) + seq![":- discontiguous(expressionAddress/2)."@] + spec_node_lines(
        nodes,
        |n: Seq<char>, r: ExpressionRefView| spec_expression_address_line(n, r),
    )
}

fn add_node(nodes: &mut Vec<String>, text: &str)
    ensures
        views(final(nodes)@) == spec_add_node(views(old(nodes)@), text@),
{
    if text.is_empty() || crate::text::contains_str(nodes, text) {
        return ;
    }
    let ghost before = nodes@;
    nodes.push(String::from_str(text));
    assert(views(nodes@) =~= views(before).push(text@));
}

/// The nodes of a set of links.
pub fn nodes_of(all_links: &Vec<DecoratedLinkExpression>) -> (nodes: Vec<String>)
    ensures
        views(nodes@) == spec_nodes(views(all_links@)),
{
    let mut nodes: Vec<String> = Vec::new();
    let ghost links = views(all_links@);
    let mut i: usize = 0;
    proof {
        assert(links.take(0) =~= Seq::<DecoratedLinkExpressionView>::empty());
        assert(views(nodes@) =~= Seq::<Seq<char>>::empty());
    }
    while i < all_links.len()
        invariant
            i <= all_links.len(),
            links == views(all_links@),
            views(nodes@) == spec_nodes(links.take(i as int)),
        decreases all_links.len() - i,
    {
        proof {
            assert(links.take(i + 1).drop_last() =~= links.take(i as int));
            assert(links.take(i + 1).last() == all_links@[i as int]@);
        }
        let link = &all_links[i].data;
        add_node(&mut nodes, link.source.as_str());
        match &link.predicate {
            Some(p) => {
                add_node(&mut nodes, p.as_str());
            },
            None => {},
        }
        add_node(&mut nodes, link.target.as_str());
        i += 1;
    }
    proof {
        assert(links.take(i as int) =~= links);
    }
    nodes
}

fn described(node: &String) -> (out: Option<ExpressionRef>)
    ensures
        out is Some <==> spec_described(node@) is Some,
        out matches Some(reference) ==> reference@ == spec_described(node@)->0,
{
    if str_eq(node.as_str(), "false") || str_eq(node.as_str(), "true") {
        return None;
    }
    match ExpressionRef::try_from(node.clone()) {
        Ok(reference) => Some(reference),
        Err(_) => None,
    }
}

/// The facts about the nodes of a set of links.
pub fn node_facts(all_links: &Vec<DecoratedLinkExpression>) -> (lines: Vec<String>)
    ensures
        views(lines@) == spec_node_facts(views(all_links@)),
{
    let nodes = nodes_of(all_links);
    let ghost all = views(nodes@);
    let ghost address_line = |n: Seq<char>, r: ExpressionRefView| spec_language_address_line(n, r);
    let ghost name_line = |n: Seq<char>, r: ExpressionRefView| spec_language_name_line(n, r);
    let ghost expression_line = |n: Seq<char>, r: ExpressionRefView|
        spec_expression_address_line(n, r);
    let mut lang_addrs: Vec<String> = Vec::new();
    let mut lang_names: Vec<String> = Vec::new();
    let mut expr_addrs: Vec<String> = Vec::new();
    lang_addrs.push(String::from_str(":- discontiguous(languageAddress/2)."));
    lang_names.push(String::from_str(":- discontiguous(languageName/2)."));
    expr_addrs.push(String::from_str(":- discontiguous(expressionAddress/2)."));
    let ghost address_head = seq![":- discontiguous(languageAddress/2)."@];
    let ghost name_head = seq![":- discontiguous(languageName/2)."@];
    let ghost expression_head = seq![":- discontiguous(expressionAddress/2)."@];
    let mut i: usize = 0;
    proof {
        assert(all.take(0) =~= Seq::<Seq<char>>::empty());
        assert(views(lang_addrs@) =~= address_head + spec_node_lines(all.take(0), address_line));
        assert(views(lang_names@) =~= name_head + spec_node_lines(all.take(0), name_line));
        assert(views(expr_addrs@) =~= expression_head + spec_node_lines(
            all.take(0),
            expression_line,
        ));
    }
    while i < nodes.len()
        invariant
            i <= nodes.len(),
            all == views(nodes@),
            address_line == |n: Seq<char>, r: ExpressionRefView| spec_language_address_line(n, r),
            name_line == |n: Seq<char>, r: ExpressionRefView| spec_language_name_line(n, r),
            expression_line == |n: Seq<char>, r: ExpressionRefView|
                spec_expression_address_line(n, r),
            views(lang_addrs@) == address_head + spec_node_lines(all.take(i as int), address_line),
            views(lang_names@) == name_head + spec_node_lines(all.take(i as int), name_line),
            views(expr_addrs@) == expression_head + spec_node_lines(
                all.take(i as int),
                expression_line,
            ),
        decreases nodes.len() - i,
    {
        proof {
            assert(all.take(i + 1).drop_last() =~= all.take(i as int));
            assert(all.take(i + 1).last() == nodes@[i as int]@);
        }
        let node = &nodes[i];
        match described(node) {
            Some(reference) => {
                let mut address = String::from_str("languageAddress(\"");
                address.append(node.as_str());
                address.append("\", \"");
                address.append(reference.language.address.as_str());
                address.append("\").");
                let mut name = String::from_str("languageName(\"");
                name.append(node.as_str());
                name.append("\", \"");
                if reference.language.name.as_str().is_empty() {
                    name.append("unknown");
                } else {
                    name.append(reference.language.name.as_str());
                }
                name.append("\").");
                let mut expression = String::from_str("expressionAddress(\"");
                expression.append(node.as_str());
                expression.append("\", \"");
                expression.append(reference.expression.as_str());
                expression.append("\").");
                let ghost addresses = views(lang_addrs@);
                let ghost names = views(lang_names@);
                let ghost expressions = views(expr_addrs@);
                push_line(&mut lang_addrs, address);
                push_line(&mut lang_names, name);
                push_line(&mut expr_addrs, expression);
                proof {
                    assert(address@ == address_line(node@, reference@));
                    assert(name@ == name_line(node@, reference@));
                    assert(expression@ == expression_line(node@, reference@));
                    assert(addresses.push(address@) =~= address_head + spec_node_lines(
                        all.take(i as int),
                        address_line,
                    ).push(address@));
                    assert(names.push(name@) =~= name_head + spec_node_lines(
                        all.take(i as int),
                        name_line,
                    ).push(name@));
                    assert(expressions.push(expression@) =~= expression_head + spec_node_lines(
                        all.take(i as int),
                        expression_line,
                    ).push(expression@));
                }
            },
            None => {},
        }
        i += 1;
    }
    proof {
        assert(all.take(i as int) =~= all);
    }
    let ghost first = views(lang_addrs@);
    let ghost second = views(lang_names@);
    let ghost third = views(expr_addrs@);
    let mut lines = lang_addrs;
    let ghost names_raw = lang_names@;
    lines.append(&mut lang_names);
    let ghost mid_raw = lines@;
    let ghost expr_raw = expr_addrs@;
    lines.append(&mut expr_addrs);
    proof {
        assert(views(mid_raw) =~= first + second);
        assert(views(lines@) =~= first + second + third);
    }
    lines
}



/// Whether no two classes of a table have the same name.
pub open spec fn spec_names_distinct(classes: Seq<SubjectClassView>) -> bool {
    forall|i: int, j: int|
        0 <= i < j < classes.len() ==> (#[trigger] classes[i]).name != (#[trigger] classes[j]).name
}

/// Recording a definition keeps the names of a table distinct.
pub proof fn lemma_record_keeps_names_distinct(
    classes: Seq<SubjectClassView>,
    definition: SubjectClassView,
)
    requires
        spec_names_distinct(classes),
    ensures
        spec_names_distinct(spec_record(classes, definition)),
{
    lemma_class_index(classes, definition.name);
    let at = spec_class_index(classes, definition.name);
    let after = spec_record(classes, definition);
    assert forall|i: int, j: int| 0 <= i < j < after.len() implies (#[trigger] after[i]).name != (
    #[trigger] after[j]).name by {
        if at < classes.len() {
            assert(after[i].name == classes[i].name);
            assert(after[j].name == classes[j].name);
        } else {
            if j < classes.len() {
                assert(after[i] == classes[i]);
                assert(after[j] == classes[j]);
            } else {
                assert(after[i] == classes[i]);
            }
        }
    }
}

/// The fact base holds one definition for each class name: whatever the
/// links, no two classes of the table have the same name.
pub proof fn law_one_definition_per_class(
    links: Seq<DecoratedLinkExpressionView>,
    agent_did: Seq<char>,
    neighbourhood_author: Option<Seq<char>>,
)
    ensures
        spec_names_distinct(spec_classes(links, agent_did, neighbourhood_author)),
    decreases links.len(),
{
    if links.len() > 0 {
        law_one_definition_per_class(links.drop_last(), agent_did, neighbourhood_author);
        match spec_definition(links.last(), agent_did, neighbourhood_author) {
            Some(definition) => {
                lemma_record_keeps_names_distinct(
                    spec_classes(links.drop_last(), agent_did, neighbourhood_author),
                    definition,
                );
            },
            None => {},
        }
    }
}

/// A definition that supersedes the one in the table takes its place, and a
/// definition that does not leaves the table as it is: the class of a name
/// is always the definition with the greatest timestamp seen so far, the
/// first of them among equals.
pub proof fn law_record_keeps_the_newest(
    classes: Seq<SubjectClassView>,
    definition: SubjectClassView,
)
    requires
        0 <= spec_class_index(classes, definition.name) < classes.len(),
    ensures
        spec_record(classes, definition)[spec_class_index(classes, definition.name)] == (
        if spec_supersedes(
            classes[spec_class_index(classes, definition.name)].timestamp,
            definition.timestamp,
        ) {
            definition
        } else {
            classes[spec_class_index(classes, definition.name)]
        }),
        spec_record(classes, definition).len() == classes.len(),
{
}



/// Whether a class is, as a whole, the definition that one of the links
/// contributes.
pub open spec fn spec_defined_by(
    links: Seq<DecoratedLinkExpressionView>,
    agent_did: Seq<char>,
    neighbourhood_author: Option<Seq<char>>,
    class: SubjectClassView,
) -> bool {
    exists|j: int|
        0 <= j < links.len() && spec_definition(
            #[trigger] links[j],
            agent_did,
            neighbourhood_author,
        ) == Some(class)
}

/// Where the class of a name stands after a definition was recorded, and
/// what it is: a class of another name stays where and what it was; the
/// class of the definition's name is the definition if the name is new or
/// the definition supersedes, else what it was.
pub proof fn lemma_record_entry(
    classes: Seq<SubjectClassView>,
    definition: SubjectClassView,
    name: Seq<char>,
)
    ensures
        spec_class_index(classes, name) < classes.len() ==> spec_class_index(
            spec_record(classes, definition),
            name,
        ) == spec_class_index(classes, name),
        spec_class_index(classes, name) < classes.len() && name != definition.name
            ==> spec_record(classes, definition)[spec_class_index(classes, name)]
            == classes[spec_class_index(classes, name)],
        spec_class_index(classes, name) >= classes.len() && name == definition.name
            ==> spec_class_index(spec_record(classes, definition), name) == classes.len()
            && spec_record(classes, definition) == classes.push(definition),
        spec_class_index(classes, name) >= classes.len() && name != definition.name
            ==> spec_class_index(spec_record(classes, definition), name) == spec_record(
            classes,
            definition,
        ).len(),
{
    let after = spec_record(classes, definition);
    let at = spec_class_index(classes, name);
    let def_at = spec_class_index(classes, definition.name);
    lemma_class_index(classes, name);
    lemma_class_index(classes, definition.name);
    if def_at < classes.len() {
        // The table keeps its length, and every class its name.
        assert forall|k: int| 0 <= k < after.len() implies (#[trigger] after[k]).name
            == classes[k].name by {}
        assert forall|k: int| 0 <= k < at implies after[k].name != name by {}
        lemma_class_index_is(after, name, at);
    } else {
        assert(after =~= classes.push(definition));
        if name == definition.name {
            assert forall|k: int| 0 <= k < classes.len() implies after[k].name != name by {
                assert(after[k] == classes[k]);
            }
            lemma_class_index_is(after, name, classes.len() as int);
        } else {
            assert forall|k: int| 0 <= k < at implies after[k].name != name by {
                assert(after[k] == classes[k]);
            }
            if at < classes.len() {
                assert(after[at] == classes[at]);
                lemma_class_index_is(after, name, at);
            } else {
                assert(after[at] == definition);
                lemma_class_index_is(after, name, at + 1);
            }
        }
    }
}

/// Every class of the table is, as a whole, the definition of one link:
/// no code is put together from several links.
pub proof fn law_classes_are_whole_definitions(
    links: Seq<DecoratedLinkExpressionView>,
    agent_did: Seq<char>,
    neighbourhood_author: Option<Seq<char>>,
)
    ensures
        forall|k: int|
            0 <= k < spec_classes(links, agent_did, neighbourhood_author).len()
                ==> spec_defined_by(
                links,
                agent_did,
                neighbourhood_author,
                #[trigger] spec_classes(links, agent_did, neighbourhood_author)[k],
            ),
    decreases links.len(),
{
    if links.len() > 0 {
        let earlier = links.drop_last();
        let before = spec_classes(earlier, agent_did, neighbourhood_author);
        let after = spec_classes(links, agent_did, neighbourhood_author);
        law_classes_are_whole_definitions(earlier, agent_did, neighbourhood_author);
        assert forall|k: int| 0 <= k < after.len() implies spec_defined_by(
            links,
            agent_did,
            neighbourhood_author,
            #[trigger] after[k],
        ) by {
            let last = spec_definition(links.last(), agent_did, neighbourhood_author);
            if last is Some && after[k] == last->0 {
                assert(links[links.len() - 1] == links.last());
            } else {
                lemma_class_index(before, last->0.name);
                assert(k < before.len() && after[k] == before[k]);
                assert(spec_defined_by(earlier, agent_did, neighbourhood_author, before[k]));
                let j = choose|j: int|
                    0 <= j < earlier.len() && spec_definition(
                        #[trigger] earlier[j],
                        agent_did,
                        neighbourhood_author,
                    ) == Some(before[k]);
                assert(links[j] == earlier[j]);
            }
        }
    }
}

/// Whatever the links and their order: the class of a name is one whole
/// definition of that name, and among the definitions of that name no
/// later instant than the class's is found, as far as both timestamps are
/// RFC 3339 dates and times.
pub proof fn law_class_is_the_latest_definition(
    links: Seq<DecoratedLinkExpressionView>,
    agent_did: Seq<char>,
    neighbourhood_author: Option<Seq<char>>,
    i: int,
)
    requires
        0 <= i < links.len(),
        spec_definition(links[i], agent_did, neighbourhood_author) is Some,
    ensures
        ({
            let definition = spec_definition(links[i], agent_did, neighbourhood_author)->0;
            let classes = spec_classes(links, agent_did, neighbourhood_author);
            let at = spec_class_index(classes, definition.name);
            &&& 0 <= at < classes.len()
            &&& classes[at].name == definition.name
            &&& spec_defined_by(links, agent_did, neighbourhood_author, classes[at])
            &&& rfc3339_millis(classes[at].timestamp) is Some && rfc3339_millis(
                definition.timestamp,
            ) is Some ==> rfc3339_millis(classes[at].timestamp)->0 >= rfc3339_millis(
                definition.timestamp,
            )->0
        }),
    decreases links.len(),
{
    let definition = spec_definition(links[i], agent_did, neighbourhood_author)->0;
    let earlier = links.drop_last();
    let before = spec_classes(earlier, agent_did, neighbourhood_author);
    let after = spec_classes(links, agent_did, neighbourhood_author);
    let last = spec_definition(links.last(), agent_did, neighbourhood_author);
    law_classes_are_whole_definitions(links, agent_did, neighbourhood_author);
    lemma_class_index(before, definition.name);
    lemma_class_index(after, definition.name);
    if i < links.len() - 1 {
        assert(earlier[i] == links[i]);
        law_class_is_the_latest_definition(earlier, agent_did, neighbourhood_author, i);
        if last is Some {
            lemma_record_entry(before, last->0, definition.name);
        }
    } else {
        assert(links[i] == links.last());
        lemma_record_entry(before, definition, definition.name);
    }
}

} // verus!

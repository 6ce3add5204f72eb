//! The fixed clauses that every fact base carries.
//!
//! Each block is one text; the fact base holds its lines, split at `\n`.

use vstd::prelude::*;

verus! {

/// Declarations of the two dynamic predicates that hold the links.
pub const PREAMBLE: &'static str = r#":- discontiguous(triple/3).
:- discontiguous(link/5).
:- dynamic(triple/3).
:- dynamic(link/5)."#;

/// Reachability, and the declarations of every predicate that class
/// definitions may add clauses to, followed by the library imports.
pub const DECLARATIONS: &'static str = r#":- discontiguous(reachable/2).
reachable(A,B) :- triple(A,_,B).
reachable(A,B) :- triple(A,_,X), reachable(X,B).
:- discontiguous(hiddenExpression/1).
:- discontiguous(register_sdna_flow/2).
:- discontiguous(flowable/2).
:- discontiguous(flow_state/3).
:- discontiguous(start_action/2).
:- discontiguous(action/4).
:- discontiguous(subject_class/2).
:- discontiguous(constructor/2).
:- discontiguous(destructor/2).
:- discontiguous(instance/2).
:- discontiguous(property/2).
:- discontiguous(property_getter/4).
:- discontiguous(property_setter/3).
:- discontiguous(property_resolve/2).
:- discontiguous(property_resolve_language/3).
:- discontiguous(property_named_option/4).
:- discontiguous(collection/2).
:- discontiguous(collection_getter/4).
:- discontiguous(collection_setter/3).
:- discontiguous(collection_remover/3).
:- discontiguous(collection_adder/3).
:- discontiguous(p3_class_icon/2).
:- discontiguous(p3_class_color/2).
:- discontiguous(p3_instance_color/3).
:- use_module(library(lists)).
:- use_module(library(dcgs)).
:- use_module(library(charsio)).
:- use_module(library(format)).
:- use_module(library(assoc)).
:- use_module(library(dif))."#;

/// Pagination over lists.
pub const PAGINATION: &'static str = r#"
:- discontiguous(paginate/4).
paginate(Data, PageNumber, PageSize, PageData) :-
PageNumber > 0,
PageSize > 0,
length(Data, DataLength),
MaxSkip is max(0, DataLength - PageSize),
SkipCount is min((PageNumber - 1) * PageSize, MaxSkip),
skipN(Data, SkipCount, SkippedData),
takeN(SkippedData, PageSize, PageData).

:- discontiguous(skipN/3).
skipN(Data, 0, Data).
skipN([_|Rest], N, SkippedData) :-
N > 0,
NextN is N - 1,
skipN(Rest, NextN, SkippedData).

:- discontiguous(takeN/3).
takeN(_, 0, []).
takeN([Item|Rest], N, [Item|PageRest]) :-
N > 0,
NextN is N - 1,
takeN(Rest, NextN, PageRest).
    "#;

/// HTML stripping, substring search and literal URL decoding.
pub const TEXT_PREDICATES: &'static str = r#"
% Main predicate to remove HTML tags
remove_html_tags(Input, Output) :-
    phrase(strip_html(Output), Input).

% DCG rule to strip HTML tags
strip_html([]) --> [].
strip_html(Result) -->
    "<", !, skip_tag, strip_html(Result).
strip_html([Char|Result]) -->
    [Char],
    strip_html(Result).

% DCG rule to skip HTML tags
skip_tag --> ">", !.
skip_tag --> [_], skip_tag.

% Main predicate to check if Substring is included in String
string_includes(String, Substring) :-
    phrase((..., string(Substring), ...), String).

% DCG rule for any sequence of characters
... --> [].
... --> [_], ... .

% DCG rule for matching a specific string
string([]) --> [].
string([C|Cs]) --> [C], string(Cs).


literal_from_url(Url, Decoded, Scheme) :-
    phrase(parse_url(Scheme, Encoded), Url),
    phrase(url_decode(Decoded), Encoded).

% DCG rule to parse the URL
parse_url(Scheme, Encoded) -->
    "literal://", scheme(Scheme), ":", string(Encoded).

scheme(string) --> "string".
scheme(number) --> "number".
scheme(json) --> "json".

url_decode([]) --> [].
url_decode([H|T]) --> url_decode_char(H), url_decode(T).

url_decode_char(' ') --> "%20".
url_decode_char('!') --> "%21".
url_decode_char('"') --> "%22".
url_decode_char('#') --> "%23".
url_decode_char('$') --> "%24".
url_decode_char('%') --> "%25".
url_decode_char('&') --> "%26".
url_decode_char('\'') --> "%27".
url_decode_char('(') --> "%28".
url_decode_char(')') --> "%29".
url_decode_char('*') --> "%2A".
url_decode_char('+') --> "%2B".
url_decode_char(',') --> "%2C".
url_decode_char('/') --> "%2F".
url_decode_char(':') --> "%3A".
url_decode_char(';') --> "%3B".
url_decode_char('=') --> "%3D".
url_decode_char('?') --> "%3F".
url_decode_char('@') --> "%40".
url_decode_char('[') --> "%5B".
url_decode_char(']') --> "%5D".
url_decode_char('{') --> "%7B".
url_decode_char('}') --> "%7D".
url_decode_char('<') --> "%3C".
url_decode_char('>') --> "%3E".
url_decode_char('\\') --> "%5C".
url_decode_char('^') --> "%5E".
url_decode_char('_') --> "%5F".
url_decode_char('|') --> "%7C".
url_decode_char('~') --> "%7E".
url_decode_char('`') --> "%60".
url_decode_char('-') --> "%2D".
url_decode_char('.') --> "%2E".

url_decode_char(Char) --> [Char], { \+ member(Char, "%") }.
    "#;

/// A small JSON reader.
pub const JSON_PARSER: &'static str = r#"
    % Main predicate to parse JSON and extract a property
    json_property(JsonString, Property, Value) :-
        phrase(json_dict(Dict), JsonString),
        get_assoc(Property, Dict, Value).
    
    % DCG rules to parse JSON
    json_dict(Dict) -->
        ws, "{", ws, key_value_pairs(Pairs), ws, "}", ws,
        { list_to_assoc(Pairs, Dict) }.
    
    key_value_pairs([Key-Value|Pairs]) -->
        ws, json_string(Key), ws, ":", ws, json_value(Value), ws, ("," -> key_value_pairs(Pairs) ; {Pairs=[]}).
    
    json_value(Value) --> json_dict(Value).
    json_value(Value) --> json_array(Value).
    json_value(Value) --> json_string(Value).
    json_value(Value) --> json_number(Value).
    
    json_array([Value|Values]) -->
        "[", ws, json_value(Value), ws, ("," -> json_value_list(Values) ; {Values=[]}), ws, "]".
    json_value_list([Value|Values]) --> json_value(Value), ws, ("," -> json_value_list(Values) ; {Values=[]}).
    
    json_string(String) -->
    "\"", json_string_chars(String), "\"".

    json_string_chars([]) --> [].
    json_string_chars([C|Cs]) --> json_string_char(C), json_string_chars(Cs).

    json_string_char(C) --> [C], { dif(C, '"'), dif(C, '\\') }.
    json_string_char('"') --> ['\\', '"'].
    json_string_char('\\') --> ['\\', '\\'].
    json_string_char('/') --> ['\\', '/'].
    json_string_char('\b') --> ['\\', 'b'].
    json_string_char('\f') --> ['\\', 'f'].
    json_string_char('\n') --> ['\\', 'n'].
    json_string_char('\r') --> ['\\', 'r'].
    json_string_char('\t') --> ['\\', 't'].
    
    json_number(Number) -->
        number_sequence(Chars),
        { atom_chars(Atom, Chars),
          atom_number(Atom, Number) }.
    
    string_chars([]) --> [].
    string_chars([C|Cs]) --> [C], { dif(C, '"') }, string_chars(Cs).
    
    % Simplified number_sequence to handle both integer and fractional parts
    number_sequence([D|Ds]) --> digit(D), number_sequence_rest(Ds).
    number_sequence_rest([D|Ds]) --> digit(D), number_sequence_rest(Ds).
    number_sequence_rest([]) --> [].
    
    digit(D) --> [D], { member(D, "0123456789.") }.
    
    ws --> ws_char, ws.
    ws --> [].
    
    ws_char --> [C], { C = ' ' ; C = '\t' ; C = '\n' ; C = '\r' }.
    "#;

/// Assertion of links and triples that are not yet known.
pub const ASSERT_LINK: &'static str = r#"
    assert_link(Source, Predicate, Target, Timestamp, Author) :-
        \+ link(Source, Predicate, Target, Timestamp, Author),
        assertz(link(Source, Predicate, Target, Timestamp, Author)).

    assert_triple(Source, Predicate, Target) :-
        \+ triple(Source, Predicate, Target),
        assertz(triple(Source, Predicate, Target)).

    assert_link_and_triple(Source, Predicate, Target, Timestamp, Author) :-
        (assert_link(Source, Predicate, Target, Timestamp, Author) ; true),
        (assert_triple(Source, Predicate, Target) ; true).
"#;

} // verus!

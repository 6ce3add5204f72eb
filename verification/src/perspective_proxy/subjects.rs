//! Subject classes through the facade: the queries put to the logic engine
//! and what is read from its answers, and the social DNA kept as links.

use crate::literal::{spec_literal, spec_literal_url, Literal, LiteralKind, LiteralView};
use crate::perspective_proxy::store::{Request, RequestRun, RequestRunView, RequestView, StoreError};
use crate::perspective_proxy::{spec_set_single_target, spec_target_query, PerspectiveProxy};
use crate::text::{opt_view, str_eq, views};
use crate::types::{LinkExpression, LinkExpressionView};
use vstd::prelude::*;
use vstd::string::*;

verus! {

/// The source of the links that hold the social DNA of a perspective.
pub const SELF: &'static str = "ad4m://self";

/// The predicate of the links that hold the social DNA of a perspective.
pub const HAS_ZOME: &'static str = "ad4m://has_zome";

/// One variable of an answer of the logic engine, with the text bound to
/// it; no text where the variable is bound to something else.
#[derive(Debug, Clone, PartialEq, Eq)]
pub struct Binding {
    pub name: String,
    pub text: Option<String>,
}

/// The mathematical value of a [`Binding`].
pub struct BindingView {
    pub name: Seq<char>,
    pub text: Option<Seq<char>>,
}

impl View for Binding {
    type V = BindingView;

    open spec fn view(&self) -> BindingView {
        BindingView { name: self.name@, text: opt_view(self.text) }
    }
}

/// One element of a list that the logic engine answered with.
#[derive(Debug, Clone, PartialEq, Eq)]
pub enum InferRow {
    /// Variables and what is bound to them.
    Object(Vec<Binding>),
    /// Anything else.
    Other,
}

/// The mathematical value of an [`InferRow`].
pub enum InferRowView {
    Object(Seq<BindingView>),
    Other,
}

impl View for InferRow {
    type V = InferRowView;

    open spec fn view(&self) -> InferRowView {
        match self {
            InferRow::Object(bindings) => InferRowView::Object(views(bindings@)),
            InferRow::Other => InferRowView::Other,
        }
    }
}

/// What the logic engine answered.
#[derive(Debug, Clone, PartialEq, Eq)]
pub enum InferResult {
    Bool(bool),
    Text(String),
    Rows(Vec<InferRow>),
    Other,
}

/// The mathematical value of an [`InferResult`].
pub enum InferResultView {
    Bool(bool),
    Text(Seq<char>),
    Rows(Seq<InferRowView>),
    Other,
}

impl View for InferResult {
    type V = InferResultView;

    open spec fn view(&self) -> InferResultView {
        match self {
            InferResult::Bool(b) => InferResultView::Bool(*b),
            InferResult::Text(text) => InferResultView::Text(text@),
            InferResult::Rows(rows) => InferResultView::Rows(views(rows@)),
            InferResult::Other => InferResultView::Other,
        }
    }
}

/// The position of the first binding of a variable, or the number of
/// bindings if it has none.
pub open spec fn spec_binding_index(bindings: Seq<BindingView>, variable: Seq<char>) -> int
    decreases bindings.len(),
{
    if bindings.len() == 0 {
        0
    } else if bindings[0].name == variable {
        0
    } else {
        1 + spec_binding_index(bindings.skip(1), variable)
    }
}

/// The text bound to a variable in an element; none where the element is
/// no object, the variable is not bound, or it is bound to no text.
pub open spec fn spec_bound_text(row: InferRowView, variable: Seq<char>) -> Option<Seq<char>> {
    match row {
        InferRowView::Object(bindings) => {
            let at = spec_binding_index(bindings, variable);
            if 0 <= at < bindings.len() {
                bindings[at].text
            } else {
                None
            }
        },
        InferRowView::Other => None,
    }
}

/// The texts bound to a variable in the elements of a list, in order.
pub open spec fn spec_bound_texts(rows: Seq<InferRowView>, variable: Seq<char>) -> Seq<Seq<char>>
    decreases rows.len(),
{
    if rows.len() == 0 {
        Seq::empty()
    } else {
        match spec_bound_text(rows.last(), variable) {
            Some(text) => spec_bound_texts(rows.drop_last(), variable).push(text),
            None => spec_bound_texts(rows.drop_last(), variable),
        }
    }
}

/// The texts that an answer binds to a variable: those of its elements if
/// it is a list, none otherwise.
pub open spec fn spec_answers(result: InferResultView, variable: Seq<char>) -> Seq<Seq<char>> {
    match result {
        InferResultView::Rows(rows) => spec_bound_texts(rows, variable),
        _ => Seq::empty(),
    }
}

/// Whether an answer says yes: a list with an element, or the boolean true.
pub open spec fn spec_holds(result: InferResultView) -> bool {
    match result {
        InferResultView::Rows(rows) => rows.len() > 0,
        InferResultView::Bool(b) => b,
        _ => false,
    }
}

/// The first binding of a variable lies where the index says.
pub proof fn lemma_binding_index_is(bindings: Seq<BindingView>, variable: Seq<char>, at: int)
    requires
        0 <= at <= bindings.len(),
        forall|k: int| 0 <= k < at ==> bindings[k].name != variable,
        at < bindings.len() ==> bindings[at].name == variable,
    ensures
        spec_binding_index(bindings, variable) == at,
    decreases bindings.len(),
{
    if bindings.len() > 0 && at > 0 {
        let rest = bindings.skip(1);
        assert forall|k: int| 0 <= k < at - 1 implies rest[k].name != variable by {
            assert(rest[k] == bindings[k + 1]);
        }
        if at < bindings.len() {
            assert(rest[at - 1] == bindings[at]);
        }
        lemma_binding_index_is(rest, variable, at - 1);
    }
}

/// The text bound to a variable in an element.
pub fn bound_text(row: &InferRow, variable: &str) -> (out: Option<String>)
    ensures
        opt_view(out) == spec_bound_text(row@, variable@),
{
    match row {
        InferRow::Object(bindings) => {
            let mut i: usize = 0;
            while i < bindings.len()
                invariant
                    i <= bindings.len(),
                    row@ == InferRowView::Object(views(bindings@)),
                    forall|k: int| 0 <= k < i ==> views(bindings@)[k].name != variable@,
                decreases bindings.len() - i,
            {
                if str_eq(bindings[i].name.as_str(), variable) {
                    let out = crate::text::clone_opt(&bindings[i].text);
                    proof {
                        assert(views(bindings@)[i as int] == bindings@[i as int]@);
                        lemma_binding_index_is(views(bindings@), variable@, i as int);
                    }
                    return out;
                }
                assert(views(bindings@)[i as int] == bindings@[i as int]@);
                i += 1;
            }
            proof {
                lemma_binding_index_is(views(bindings@), variable@, i as int);
            }
            None
        },
        InferRow::Other => None,
    }
}

/// The texts that an answer binds to a variable.
pub fn answers(result: &InferResult, variable: &str) -> (out: Vec<String>)
    ensures
        views(out@) == spec_answers(result@, variable@),
{
    let mut out: Vec<String> = Vec::new();
    assert(views(out@) =~= Seq::<Seq<char>>::empty());
    match result {
        InferResult::Rows(rows) => {
            let ghost all = views(rows@);
            let mut i: usize = 0;
            proof {
                assert(all.take(0) =~= Seq::<InferRowView>::empty());
            }
            while i < rows.len()
                invariant
                    i <= rows.len(),
                    all == views(rows@),
                    views(out@) == spec_bound_texts(all.take(i as int), variable@),
                decreases rows.len() - i,
            {
                proof {
                    assert(all.take(i + 1).drop_last() =~= all.take(i as int));
                    assert(all.take(i + 1).last() == rows@[i as int]@);
                }
                match bound_text(&rows[i], variable) {
                    Some(text) => {
                        let ghost before = out@;
                        out.push(text);
                        assert(views(out@) =~= views(before).push(text@));
                    },
                    None => {},
                }
                i += 1;
            }
            proof {
                assert(all.take(i as int) =~= all);
            }
        },
        _ => {},
    }
    out
}

/// Why the social DNA could not be read from the links that hold it.
#[derive(Debug, Clone, Copy, PartialEq, Eq, Structural)]
pub enum DnaError {
    /// A target that is no literal URL, or one that does not decode.
    NotALiteral,
    /// A target that is a literal, but no text.
    NotAStringLiteral,
}

impl DnaError {
    /// The text shown to the caller.
    pub fn message(&self) -> (out: String)
        ensures
            out@ == (match *self {
                DnaError::NotALiteral => "Not a literal URL"@,
                DnaError::NotAStringLiteral => "Not a string literal"@,
            }),
    {
        match self {
            DnaError::NotALiteral => String::from_str("Not a literal URL"),
            DnaError::NotAStringLiteral => String::from_str("Not a string literal"),
        }
    }
}

/// The piece of social DNA that a link holds.
pub open spec fn spec_zome(link: LinkExpressionView) -> Result<Seq<char>, DnaError> {
    match spec_literal(link.data.target) {
        Some(literal) => if literal.kind == LiteralKind::Text {
            Ok(literal.value)
        } else {
            Err(DnaError::NotAStringLiteral)
        },
        None => Err(DnaError::NotALiteral),
    }
}

/// The social DNA that links hold, piece by piece, or the error of the
/// first link that holds none.
pub open spec fn spec_dna(links: Seq<LinkExpressionView>) -> Result<Seq<Seq<char>>, DnaError>
    decreases links.len(),
{
    if links.len() == 0 {
        Ok(Seq::empty())
    } else {
        match spec_dna(links.drop_last()) {
            Ok(pieces) => match spec_zome(links.last()) {
                Ok(piece) => Ok(pieces.push(piece)),
                Err(e) => Err(e),
            },
            Err(e) => Err(e),
        }
    }
}

/// The error that a missing constructor comes to.
#[derive(Debug, PartialEq, Eq)]
pub enum SubjectError {
    /// The first answer leaves the variable `Action` unbound.
    UnboundAction,
    /// The class has no constructor.
    NoConstructor(String),
    /// The expression is no instance of the class.
    NotAnInstance { base: String, class: String },
}

impl SubjectError {
    /// The text shown to the caller.
    pub fn message(&self) -> (out: String)
        ensures
            out@ == (match *self {
                SubjectError::UnboundAction => "Unbound variable Action is not set"@,
                SubjectError::NoConstructor(class) => "No constructor found for class: "@ + class@,
                SubjectError::NotAnInstance { base, class } => "Expression "@ + base@
                    + " is not a subject instance of class: "@ + class@,
            }),
    {
        match self {
            SubjectError::UnboundAction => String::from_str("Unbound variable Action is not set"),
            SubjectError::NoConstructor(class) => {
                let mut out = String::from_str("No constructor found for class: ");
                out.append(class.as_str());
                out
            },
            SubjectError::NotAnInstance { base, class } => {
                let mut out = String::from_str("Expression ");
                out.append(base.as_str());
                out.append(" is not a subject instance of class: ");
                out.append(class.as_str());
                out
            },
        }
    }
}

/// What the answer to the constructor query comes to: the action text of
/// the first element, if that is an object that binds `Action` to a text.
pub open spec fn spec_constructor(result: Option<InferResultView>) -> Result<Seq<char>, bool> {
    match result {
        Some(InferResultView::Rows(rows)) => if rows.len() > 0 {
            match rows[0] {
                InferRowView::Object(bindings) => {
                    let at = spec_binding_index(bindings, "Action"@);
                    if 0 <= at < bindings.len() {
                        match bindings[at].text {
                            Some(action) => Ok(action),
                            None => Err(false),
                        }
                    } else {
                        Err(true)
                    }
                },
                InferRowView::Other => Err(false),
            }
        } else {
            Err(false)
        },
        _ => Err(false),
    }
}

fn has_binding(bindings: &Vec<Binding>, variable: &str) -> (out: bool)
    ensures
        out == (0 <= spec_binding_index(views(bindings@), variable@) < bindings.len()),
{
    let mut i: usize = 0;
    while i < bindings.len()
        invariant
            i <= bindings.len(),
            forall|k: int| 0 <= k < i ==> views(bindings@)[k].name != variable@,
        decreases bindings.len() - i,
    {
        assert(views(bindings@)[i as int] == bindings@[i as int]@);
        if str_eq(bindings[i].name.as_str(), variable) {
            proof {
                lemma_binding_index_is(views(bindings@), variable@, i as int);
            }
            return true;
        }
        i += 1;
    }
    proof {
        lemma_binding_index_is(views(bindings@), variable@, i as int);
    }
    false
}

impl PerspectiveProxy {
    /// The request that asks for the links that hold the social DNA.
    pub fn dna_query(&self) -> (out: Request)
        ensures
            out@ == (RequestView::QueryLinks {
                perspective_uuid: self.perspective_uuid@,
                query: spec_target_query(SELF@, HAS_ZOME@),
            }),
    {
        self.single_target_query(String::from_str(SELF), String::from_str(HAS_ZOME))
    }

    /// The requests that make `dna` the social DNA of the perspective, given
    /// the links that answered [`dna_query`](Self::dna_query).
    pub fn set_dna(&self, existing: &Vec<LinkExpression>, dna: String) -> (out: Vec<Request>)
        ensures
            views(out@) == spec_set_single_target(
                self.perspective_uuid@,
                views(existing@),
                SELF@,
                HAS_ZOME@,
                spec_literal_url(LiteralView { kind: LiteralKind::Text, value: dna@ }),
            ),
    {
        let literal = Literal::from_string(dna);
        self.set_single_target(
            existing,
            String::from_str(SELF),
            String::from_str(HAS_ZOME),
            literal.to_url(),
        )
    }

    /// The run that makes `dna` the social DNA of the perspective, given what
    /// the store answered to [`dna_query`](Self::dna_query). Where the query
    /// failed the run has failed with it and sends nothing.
    pub fn set_dna_run(&self, answer: Result<Vec<LinkExpression>, StoreError>, dna: String) -> (out:
        RequestRun)
        ensures
            out@ == (match answer {
                Ok(existing) => RequestRunView {
                    requests: spec_set_single_target(
                        self.perspective_uuid@,
                        views(existing@),
                        SELF@,
                        HAS_ZOME@,
                        spec_literal_url(LiteralView { kind: LiteralKind::Text, value: dna@ }),
                    ),
                    served: 0,
                    failure: None,
                },
                Err(e) => RequestRunView {
                    requests: Seq::empty(),
                    served: 0,
                    failure: Some(e@),
                },
            }),
    {
        match answer {
            Ok(existing) => RequestRun::new(self.set_dna(&existing, dna)),
            Err(e) => RequestRun::failed(e),
        }
    }

    /// The social DNA of the perspective, read from the links that answered
    /// [`dna_query`](Self::dna_query): the text of each link's target
    /// literal, in order.
    pub fn get_dna(&self, links: &Vec<LinkExpression>) -> (out: Result<Vec<String>, DnaError>)
        ensures
            out is Ok <==> spec_dna(views(links@)) is Ok,
            out matches Ok(pieces) ==> views(pieces@) == spec_dna(views(links@))->Ok_0,
            out matches Err(e) ==> e == spec_dna(views(links@))->Err_0,
    {
        let mut pieces: Vec<String> = Vec::new();
        let ghost all = views(links@);
        let mut i: usize = 0;
        proof {
            assert(all.take(0) =~= Seq::<LinkExpressionView>::empty());
            assert(views(pieces@) =~= Seq::<Seq<char>>::empty());
        }
        while i < links.len()
            invariant
                i <= links.len(),
                all == views(links@),
                spec_dna(all.take(i as int)) == Ok::<Seq<Seq<char>>, DnaError>(views(pieces@)),
            decreases links.len() - i,
        {
            proof {
                assert(all.take(i + 1).drop_last() =~= all.take(i as int));
                assert(all.take(i + 1).last() == links@[i as int]@);
            }
            let piece = match Literal::from_url(links[i].data.target.as_str()) {
                Some(literal) => {
                    match literal.kind {
                        LiteralKind::Text => literal.value,
                        _ => {
                            proof {
                                lemma_dna_fails(all, i + 1);
                            }
                            return Err(DnaError::NotAStringLiteral);
                        },
                    }
                },
                None => {
                    proof {
                        lemma_dna_fails(all, i + 1);
                    }
                    return Err(DnaError::NotALiteral);
                },
            };
            let ghost before = pieces@;
            pieces.push(piece);
            assert(views(pieces@) =~= views(before).push(piece@));
            i += 1;
        }
        proof {
            assert(all.take(i as int) =~= all);
        }
        Ok(pieces)
    }

    /// The query for the names of all subject classes.
    pub fn subject_classes_query(&self) -> (out: String)
        ensures
            out@ == "subject_class(X, _)"@,
    {
        String::from_str("subject_class(X, _)")
    }

    /// The names of the subject classes, read from the answer to
    /// [`subject_classes_query`](Self::subject_classes_query).
    pub fn subject_classes(&self, result: &InferResult) -> (out: Vec<String>)
        ensures
            views(out@) == spec_answers(result@, "X"@),
    {
        answers(result, "X")
    }

    /// The query for the properties of a subject class.
    pub fn subject_class_properties_query(&self, class: &str) -> (out: String)
        ensures
            out@ == "subject_class(\""@ + class@ + "\", C), property(C, X)"@,
    {
        let mut out = String::from_str("subject_class(\"");
        out.append(class);
        out.append("\", C), property(C, X)");
        out
    }

    /// The properties of a subject class, read from the answer to
    /// [`subject_class_properties_query`](Self::subject_class_properties_query).
    pub fn subject_class_properties(&self, result: &InferResult) -> (out: Vec<String>)
        ensures
            views(out@) == spec_answers(result@, "X"@),
    {
        answers(result, "X")
    }

    /// The query for the collections of a subject class.
    pub fn subject_class_collections_query(&self, class: &str) -> (out: String)
        ensures
            out@ == "subject_class(\""@ + class@ + "\", C), collection(C, X)"@,
    {
        let mut out = String::from_str("subject_class(\"");
        out.append(class);
        out.append("\", C), collection(C, X)");
        out
    }

    /// The collections of a subject class, read from the answer to
    /// [`subject_class_collections_query`](Self::subject_class_collections_query).
    pub fn subject_class_collections(&self, result: &InferResult) -> (out: Vec<String>)
        ensures
            views(out@) == spec_answers(result@, "X"@),
    {
        answers(result, "X")
    }

    /// The query for the constructor of a subject class.
    pub fn constructor_query(&self, class: &str) -> (out: String)
        ensures
            out@ == "subject_class(\""@ + class@ + "\", C), constructor(C, Action)"@,
    {
        let mut out = String::from_str("subject_class(\"");
        out.append(class);
        out.append("\", C), constructor(C, Action)");
        out
    }

    /// The action that constructs a subject of `class`, read from the
    /// answer to [`constructor_query`](Self::constructor_query); `None`
    /// stands for a query that failed. The action is then to be planned with
    /// [`execute_action`](Self::execute_action) on the new subject's base.
    pub fn create_subject(&self, class: &str, result: &Option<InferResult>) -> (out: Result<
        String,
        SubjectError,
    >)
        ensures
            match spec_constructor(
                match *result {
                    Some(r) => Some(r@),
                    None => None,
                },
            ) {
                Ok(action) => out matches Ok(text) && text@ == action,
                Err(unbound) => out matches Err(e) && (if unbound {
                    e == SubjectError::UnboundAction
                } else {
                    e matches SubjectError::NoConstructor(name) && name@ == class@
                }),
            },
    {
        if let Some(InferResult::Rows(rows)) = result {
            if rows.len() > 0 {
                assert(views(rows@)[0] == rows@[0]@);
                if let InferRow::Object(bindings) = &rows[0] {
                    if !has_binding(bindings, "Action") {
                        return Err(SubjectError::UnboundAction);
                    }
                    if let Some(action) = bound_text(&rows[0], "Action") {
                        return Ok(action);
                    }
                }
            }
        }
        Err(SubjectError::NoConstructor(String::from_str(class)))
    }

    /// The query whether `base` is an instance of `class`.
    pub fn is_subject_instance_query(&self, class: &str, base: &str) -> (out: String)
        ensures
            out@ == "subject_class(\""@ + class@ + "\", C), instance(C, \""@ + base@ + "\")"@,
    {
        let mut out = String::from_str("subject_class(\"");
        out.append(class);
        out.append("\", C), instance(C, \"");
        out.append(base);
        out.append("\")");
        out
    }

    /// Whether the answer to
    /// [`is_subject_instance_query`](Self::is_subject_instance_query) says
    /// that the expression is an instance.
    pub fn is_subject_instance(&self, result: &InferResult) -> (out: bool)
        ensures
            out == spec_holds(result@),
    {
        match result {
            InferResult::Rows(rows) => rows.len() > 0,
            InferResult::Bool(b) => *b,
            _ => false,
        }
    }

    /// Whether a subject of `class` may be had at `base`, given the answer
    /// to [`is_subject_instance_query`](Self::is_subject_instance_query).
    pub fn get_subject(&self, class: &str, base: &str, result: &InferResult) -> (out: Result<
        (),
        SubjectError,
    >)
        ensures
            out is Ok <==> spec_holds(result@),
            out matches Err(e) ==> e matches SubjectError::NotAnInstance { base: b, class: c }
                && b@ == base@ && c@ == class@,
    {
        if self.is_subject_instance(result) {
            Ok(())
        } else {
            Err(
                SubjectError::NotAnInstance {
                    base: String::from_str(base),
                    class: String::from_str(class),
                },
            )
        }
    }

    /// The query for the classes that `base` is an instance of.
    pub fn get_subject_classes_query(&self, base: &str) -> (out: String)
        ensures
            out@ == "instance(C, \""@ + base@ + "\"), subject_class(Classname, C)"@,
    {
        let mut out = String::from_str("instance(C, \"");
        out.append(base);
        out.append("\"), subject_class(Classname, C)");
        out
    }

    /// The classes that an expression is an instance of, read from the
    /// answer to [`get_subject_classes_query`](Self::get_subject_classes_query).
    pub fn get_subject_classes(&self, result: &InferResult) -> (out: Vec<String>)
        ensures
            views(out@) == spec_answers(result@, "Classname"@),
    {
        answers(result, "Classname")
    }
}

/// Once the links up to some position hold no social DNA, neither do all
/// the links, and the error is the same.
pub proof fn lemma_dna_fails(links: Seq<LinkExpressionView>, upto: int)
    requires
        0 <= upto <= links.len(),
        spec_dna(links.take(upto)) is Err,
    ensures
        spec_dna(links) == spec_dna(links.take(upto)),
    decreases links.len() - upto,
{
    if upto == links.len() {
        assert(links.take(upto) =~= links);
    } else {
        assert(links.take(upto + 1).drop_last() =~= links.take(upto));
        lemma_dna_fails(links, upto + 1);
    }
}

} // verus!

//! Links, signed expressions and the records built from them.

use crate::graphql_types::{
    LinkExpressionInput, LinkInput, LinkStatus, NotificationInput, PerspectiveInput,
};
use crate::text::{
    chars_of, clone_opt, opt_view, spec_starts_with, str_eq, strip_prefix, substring, views,
};
use vstd::prelude::*;
use vstd::string::*;

verus! {

/// Key and signature of a signed expression.
#[derive(Debug, PartialEq, Eq)]
pub struct ExpressionProof {
    pub key: String,
    pub signature: String,
}

/// The mathematical value of an [`ExpressionProof`].
pub struct ExpressionProofView {
    pub key: Seq<char>,
    pub signature: Seq<char>,
}

impl View for ExpressionProof {
    type V = ExpressionProofView;

    open spec fn view(&self) -> ExpressionProofView {
        ExpressionProofView { key: self.key@, signature: self.signature@ }
    }
}

impl Clone for ExpressionProof {
    fn clone(&self) -> (out: Self)
        ensures
            out@ == self@,
    {
        ExpressionProof { key: self.key.clone(), signature: self.signature.clone() }
    }
}

impl Default for ExpressionProof {
    fn default() -> (out: Self)
        ensures
            out@ == (ExpressionProofView { key: Seq::empty(), signature: Seq::empty() }),
    {
        ExpressionProof { key: String::new(), signature: String::new() }
    }
}

/// A triple: source, optional predicate, target.
#[derive(Debug, PartialEq, Eq)]
pub struct Link {
    pub predicate: Option<String>,
    pub source: String,
    pub target: String,
}

/// The mathematical value of a [`Link`].
pub struct LinkView {
    pub predicate: Option<Seq<char>>,
    pub source: Seq<char>,
    pub target: Seq<char>,
}

impl View for Link {
    type V = LinkView;

    open spec fn view(&self) -> LinkView {
        LinkView { predicate: opt_view(self.predicate), source: self.source@, target: self.target@ }
    }
}

impl Clone for Link {
    fn clone(&self) -> (out: Self)
        ensures
            out@ == self@,
    {
        Link {
            predicate: clone_opt(&self.predicate),
            source: self.source.clone(),
            target: self.target.clone(),
        }
    }
}

/// The normal form of a link: an empty predicate is an absent predicate.
pub open spec fn spec_normalize(link: LinkView) -> LinkView {
    LinkView {
        predicate: if link.predicate == Some(Seq::<char>::empty()) {
            None
        } else {
            link.predicate
        },
        source: link.source,
        target: link.target,
    }
}

impl Link {
    /// The normal form of this very link.
    pub open spec fn normalized(self) -> Link {
        Link {
            predicate: match self.predicate {
                Some(p) => if p@.len() == 0 {
                    None
                } else {
                    Some(p)
                },
                None => None,
            },
            source: self.source,
            target: self.target,
        }
    }

    /// The normal form of the link. Signing and verifying both work on it.
    pub fn normalize(&self) -> (out: Link)
        ensures
            out == self.normalized(),
            out@ == spec_normalize(self@),
    {
        let predicate = match &self.predicate {
            Some(p) => {
                assert(p@.len() == 0 <==> p@ =~= Seq::<char>::empty());
                if p.as_str().is_empty() {
                    None
                } else {
                    Some(p.clone())
                }
            },
            None => None,
        };
        Link { predicate, source: self.source.clone(), target: self.target.clone() }
    }
}

impl From<LinkInput> for Link {
    fn from(input: LinkInput) -> (out: Self) {
        Link { predicate: input.predicate, source: input.source, target: input.target }
    }
}

impl vstd::std_specs::convert::FromSpecImpl<LinkInput> for Link {
    open spec fn obeys_from_spec() -> bool {
        true
    }

    open spec fn from_spec(input: LinkInput) -> Link {
        Link { predicate: input.predicate, source: input.source, target: input.target }
    }
}

/// Normalising twice is normalising once, and the normal form has no
/// predicate exactly when the link had none or an empty one.
pub proof fn law_normalize_idempotent(link: LinkView)
    ensures
        spec_normalize(spec_normalize(link)) == spec_normalize(link),
        spec_normalize(link).predicate is None <==> (link.predicate is None || link.predicate
            == Some(Seq::<char>::empty())),
{
}



/// A signed envelope over any payload.
#[derive(Debug, PartialEq, Eq)]
pub struct Expression<T> {
    pub author: String,
    pub timestamp: String,
    pub data: T,
    pub proof: ExpressionProof,
}

/// The mathematical value of an [`Expression`].
pub struct ExpressionView<D> {
    pub author: Seq<char>,
    pub timestamp: Seq<char>,
    pub data: D,
    pub proof: ExpressionProofView,
}

impl<T: View> View for Expression<T> {
    type V = ExpressionView<T::V>;

    open spec fn view(&self) -> ExpressionView<T::V> {
        ExpressionView {
            author: self.author@,
            timestamp: self.timestamp@,
            data: self.data@,
            proof: self.proof@,
        }
    }
}

/// A proof with the outcome of its verification.
///
/// `valid` and `invalid` are both `None` before verification ran, and both
/// `Some`, each the opposite of the other, afterwards.
#[derive(Debug, PartialEq, Eq)]
pub struct DecoratedExpressionProof {
    pub key: String,
    pub signature: String,
    pub valid: Option<bool>,
    pub invalid: Option<bool>,
}

/// The mathematical value of a [`DecoratedExpressionProof`].
pub struct DecoratedExpressionProofView {
    pub key: Seq<char>,
    pub signature: Seq<char>,
    pub valid: Option<bool>,
    pub invalid: Option<bool>,
}

impl View for DecoratedExpressionProof {
    type V = DecoratedExpressionProofView;

    open spec fn view(&self) -> DecoratedExpressionProofView {
        DecoratedExpressionProofView {
            key: self.key@,
            signature: self.signature@,
            valid: self.valid,
            invalid: self.invalid,
        }
    }
}

impl Clone for DecoratedExpressionProof {
    fn clone(&self) -> (out: Self)
        ensures
            out == *self,
    {
        DecoratedExpressionProof {
            key: self.key.clone(),
            signature: self.signature.clone(),
            valid: self.valid,
            invalid: self.invalid,
        }
    }
}

impl DecoratedExpressionProofView {
    /// The two flags are absent together, or present and opposite.
    pub open spec fn well_formed(self) -> bool {
        match (self.valid, self.invalid) {
            (None, None) => true,
            (Some(v), Some(i)) => v != i,
            _ => false,
        }
    }

    /// Verification has run.
    pub open spec fn decided(self) -> bool {
        self.valid is Some && self.invalid is Some
    }
}

/// Why a signature could not be checked at all. A signature that was checked
/// and did not match is no error: it is the verdict `Ok(false)`.
#[derive(Debug, Clone, Copy, PartialEq, Eq, Structural)]
pub enum VerifyError {
    /// The author is no parseable DID.
    UnparseableDid,
    /// The key that the DID names is corrupt.
    CorruptKey,
}

/// Whether a verdict counts as a valid signature: only `Ok(true)` does.
pub open spec fn verdict_holds(verdict: Result<bool, VerifyError>) -> bool {
    verdict == Ok::<bool, VerifyError>(true)
}

/// The proof stamped with a verdict.
pub open spec fn spec_stamp(
    proof: ExpressionProofView,
    verdict: Result<bool, VerifyError>,
) -> DecoratedExpressionProofView {
    DecoratedExpressionProofView {
        key: proof.key,
        signature: proof.signature,
        valid: Some(verdict_holds(verdict)),
        invalid: Some(!verdict_holds(verdict)),
    }
}

/// Whether the verdict counts as a valid signature.
pub fn verdict_is_valid(verdict: &Result<bool, VerifyError>) -> (valid: bool)
    ensures
        valid == verdict_holds(*verdict),
{
    match verdict {
        Ok(valid) => *valid,
        Err(_) => false,
    }
}

/// An expression whose proof has been checked.
#[derive(Debug, PartialEq, Eq)]
pub struct VerifiedExpression<T> {
    pub author: String,
    pub timestamp: String,
    pub data: T,
    pub proof: DecoratedExpressionProof,
}

impl<T> VerifiedExpression<T> {
    /// Stamps an expression with the verdict on its signature.
    pub fn from_verdict(expr: Expression<T>, verdict: Result<bool, VerifyError>) -> (out: Self)
        ensures
            out.author == expr.author,
            out.timestamp == expr.timestamp,
            out.data == expr.data,
            out.proof@ == spec_stamp(expr.proof@, verdict),
            out.proof@.well_formed(),
            out.proof@.decided(),
    {
        let valid = verdict_is_valid(&verdict);
        VerifiedExpression {
            author: expr.author,
            timestamp: expr.timestamp,
            data: expr.data,
            proof: DecoratedExpressionProof {
                key: expr.proof.key,
                signature: expr.proof.signature,
                valid: Some(valid),
                invalid: Some(!valid),
            },
        }
    }
}

/// A signed link with its replication state.
#[derive(Debug, PartialEq, Eq)]
pub struct LinkExpression {
    pub author: String,
    pub timestamp: String,
    pub data: Link,
    pub proof: ExpressionProof,
    pub status: Option<LinkStatus>,
}

/// The mathematical value of a [`LinkExpression`].
pub struct LinkExpressionView {
    pub author: Seq<char>,
    pub timestamp: Seq<char>,
    pub data: LinkView,
    pub proof: ExpressionProofView,
    pub status: Option<LinkStatus>,
}

impl View for LinkExpression {
    type V = LinkExpressionView;

    open spec fn view(&self) -> LinkExpressionView {
        LinkExpressionView {
            author: self.author@,
            timestamp: self.timestamp@,
            data: self.data@,
            proof: self.proof@,
            status: self.status,
        }
    }
}

impl Clone for LinkExpression {
    fn clone(&self) -> (out: Self)
        ensures
            out@ == self@,
    {
        LinkExpression {
            author: self.author.clone(),
            timestamp: self.timestamp.clone(),
            data: self.data.clone(),
            proof: self.proof.clone(),
            status: self.status,
        }
    }
}

/// What a written link expression lacks to become a signed one.
#[derive(Debug, Clone, Copy, PartialEq, Eq, Structural)]
pub enum ProofInputError {
    /// The proof carries no key.
    KeyRequired,
    /// The proof carries no signature.
    SignatureRequired,
}

impl ProofInputError {
    /// The text shown to the caller.
    pub fn message(&self) -> (out: String)
        ensures
            out@ == "Key is required"@,
    {
        String::from_str("Key is required")
    }
}

/// The link that an input describes, in normal form.
pub open spec fn spec_input_link(input: LinkInput) -> LinkView {
    spec_normalize(
        LinkView {
            predicate: opt_view(input.predicate),
            source: input.source@,
            target: input.target@,
        },
    )
}

/// Whether a written link expression carries both key and signature.
pub open spec fn spec_has_proof(input: LinkExpressionInput) -> bool {
    input.proof.key is Some && input.proof.signature is Some
}

/// The signed link expression that a complete input describes.
pub open spec fn spec_from_input(input: LinkExpressionInput) -> LinkExpressionView {
    LinkExpressionView {
        author: input.author@,
        timestamp: input.timestamp@,
        data: spec_input_link(input.data),
        proof: ExpressionProofView {
            key: input.proof.key->0@,
            signature: input.proof.signature->0@,
        },
        status: input.status,
    }
}

/// The first thing that a written link expression lacks, if it lacks one.
pub open spec fn spec_proof_error(input: LinkExpressionInput) -> ProofInputError {
    if input.proof.key is None {
        ProofInputError::KeyRequired
    } else {
        ProofInputError::SignatureRequired
    }
}

/// The signed link expression that `input` describes, its link in normal
/// form. An input without key or without signature is refused.
pub fn link_expression_of(input: &LinkExpressionInput) -> (out: Result<
    LinkExpression,
    ProofInputError,
>)
    ensures
        out is Ok <==> spec_has_proof(*input),
        out matches Ok(expr) ==> expr@ == spec_from_input(*input),
        out matches Err(e) ==> e == spec_proof_error(*input),
{
    let data = Link {
        predicate: clone_opt(&input.data.predicate),
        source: input.data.source.clone(),
        target: input.data.target.clone(),
    }.normalize();
    let key = match &input.proof.key {
        Some(key) => key.clone(),
        None => {
            return Err(ProofInputError::KeyRequired);
        },
    };
    let signature = match &input.proof.signature {
        Some(signature) => signature.clone(),
        None => {
            return Err(ProofInputError::SignatureRequired);
        },
    };
    Ok(
        LinkExpression {
            author: input.author.clone(),
            timestamp: input.timestamp.clone(),
            data,
            proof: ExpressionProof { key, signature },
            status: input.status,
        },
    )
}

impl LinkExpression {
    /// The signed link expression that `input` describes, its link in normal
    /// form. An input without key or without signature is refused.
    pub fn try_from(input: LinkExpressionInput) -> (out: Result<LinkExpression, ProofInputError>)
        ensures
            out is Ok <==> spec_has_proof(input),
            out matches Ok(expr) ==> expr@ == spec_from_input(input),
            out matches Err(e) ==> e == spec_proof_error(input),
    {
        link_expression_of(&input)
    }

    /// The link expression that `input` describes, its link in normal form and
    /// its proof left empty, whatever proof the input carried.
    pub fn from_input_without_proof(input: LinkExpressionInput) -> (out: Self)
        ensures
            out@ == (LinkExpressionView {
                author: input.author@,
                timestamp: input.timestamp@,
                data: spec_input_link(input.data),
                proof: ExpressionProofView { key: Seq::empty(), signature: Seq::empty() },
                status: input.status,
            }),
    {
        let data = Link {
            predicate: input.data.predicate,
            source: input.data.source,
            target: input.data.target,
        }.normalize();
        LinkExpression {
            author: input.author,
            timestamp: input.timestamp,
            data,
            proof: ExpressionProof::default(),
            status: input.status,
        }
    }

    /// The envelope of the link expression, without its status.
    pub fn into_expression(self) -> (out: Expression<Link>)
        ensures
            out == (Expression {
                author: self.author,
                timestamp: self.timestamp,
                data: self.data,
                proof: self.proof,
            }),
    {
        Expression {
            author: self.author,
            timestamp: self.timestamp,
            data: self.data,
            proof: self.proof,
        }
    }

    /// The link expression of an envelope: its link in normal form, no status.
    pub fn from_expression(expr: Expression<Link>) -> (out: Self)
        ensures
            out == (LinkExpression {
                author: expr.author,
                timestamp: expr.timestamp,
                data: expr.data.normalized(),
                proof: expr.proof,
                status: None,
            }),
            out@.data == spec_normalize(expr.data@),
    {
        let data = expr.data.normalize();
        LinkExpression {
            author: expr.author,
            timestamp: expr.timestamp,
            data,
            proof: expr.proof,
            status: None,
        }
    }

    /// The link expression under a decorated one: its link in normal form, the
    /// verdict dropped.
    pub fn from_decorated(decorated: DecoratedLinkExpression) -> (out: Self)
        ensures
            out == (LinkExpression {
                author: decorated.author,
                timestamp: decorated.timestamp,
                data: decorated.data.normalized(),
                proof: ExpressionProof {
                    key: decorated.proof.key,
                    signature: decorated.proof.signature,
                },
                status: decorated.status,
            }),
            out@.data == spec_normalize(decorated.data@),
    {
        let data = decorated.data.normalize();
        LinkExpression {
            author: decorated.author,
            timestamp: decorated.timestamp,
            data,
            proof: ExpressionProof {
                key: decorated.proof.key,
                signature: decorated.proof.signature,
            },
            status: decorated.status,
        }
    }
}

/// A link expression whose proof has been evaluated.
#[derive(Debug, PartialEq, Eq)]
pub struct DecoratedLinkExpression {
    pub author: String,
    pub timestamp: String,
    pub data: Link,
    pub proof: DecoratedExpressionProof,
    pub status: Option<LinkStatus>,
}

/// The mathematical value of a [`DecoratedLinkExpression`].
pub struct DecoratedLinkExpressionView {
    pub author: Seq<char>,
    pub timestamp: Seq<char>,
    pub data: LinkView,
    pub proof: DecoratedExpressionProofView,
    pub status: Option<LinkStatus>,
}

impl View for DecoratedLinkExpression {
    type V = DecoratedLinkExpressionView;

    open spec fn view(&self) -> DecoratedLinkExpressionView {
        DecoratedLinkExpressionView {
            author: self.author@,
            timestamp: self.timestamp@,
            data: self.data@,
            proof: self.proof@,
            status: self.status,
        }
    }
}

impl Clone for DecoratedLinkExpression {
    fn clone(&self) -> (out: Self)
        ensures
            out@ == self@,
    {
        DecoratedLinkExpression {
            author: self.author.clone(),
            timestamp: self.timestamp.clone(),
            data: self.data.clone(),
            proof: self.proof.clone(),
            status: self.status,
        }
    }
}

impl DecoratedLinkExpression {
    /// The envelope that a signature check works on: author, timestamp, the
    /// link in normal form, and the bare proof.
    pub open spec fn spec_signed_subject(self) -> ExpressionView<LinkView> {
        ExpressionView {
            author: self.author@,
            timestamp: self.timestamp@,
            data: spec_normalize(self.data@),
            proof: ExpressionProofView { key: self.proof.key@, signature: self.proof.signature@ },
        }
    }

    /// The envelope to hand to the signature check.
    pub fn signed_subject(&self) -> (out: Expression<Link>)
        ensures
            out@ == self.spec_signed_subject(),
    {
        Expression {
            author: self.author.clone(),
            timestamp: self.timestamp.clone(),
            data: self.data.normalize(),
            proof: ExpressionProof {
                key: self.proof.key.clone(),
                signature: self.proof.signature.clone(),
            },
        }
    }

    /// Stamps the outcome of the signature check of
    /// [`signed_subject`](Self::signed_subject) on the proof. A check that
    /// failed with an error counts as an invalid signature. Nothing else changes.
    pub fn verify_signature(&mut self, verdict: Result<bool, VerifyError>)
        ensures
            final(self).author == old(self).author,
            final(self).timestamp == old(self).timestamp,
            final(self).data == old(self).data,
            final(self).status == old(self).status,
            final(self).proof.key == old(self).proof.key,
            final(self).proof.signature == old(self).proof.signature,
            final(self).proof.valid == Some(verdict_holds(verdict)),
            final(self).proof.invalid == Some(!verdict_holds(verdict)),
            final(self).proof@.well_formed(),
    {
        let valid = verdict_is_valid(&verdict);
        self.proof.valid = Some(valid);
        self.proof.invalid = Some(!valid);
    }

    /// Decorates a link expression: its link in normal form, the verdict on
    /// its signature stamped on the proof, and the given status attached.
    pub fn decorate(
        expr: LinkExpression,
        status: LinkStatus,
        verdict: Result<bool, VerifyError>,
    ) -> (out: Self)
        ensures
            out@ == (DecoratedLinkExpressionView {
                author: expr.author@,
                timestamp: expr.timestamp@,
                data: spec_normalize(expr.data@),
                proof: spec_stamp(expr.proof@, verdict),
                status: Some(status),
            }),
            out.proof@.well_formed(),
            out.proof@.decided(),
    {
        let mut envelope = expr.into_expression();
        envelope.data = envelope.data.normalize();
        let verified = VerifiedExpression::from_verdict(envelope, verdict);
        DecoratedLinkExpression {
            author: verified.author,
            timestamp: verified.timestamp,
            data: verified.data,
            proof: verified.proof,
            status: Some(status),
        }
    }
}



/// A language, by name and address.
#[derive(Debug, PartialEq, Eq)]
pub struct LanguageRef {
    pub name: String,
    pub address: String,
}

/// The mathematical value of a [`LanguageRef`].
pub struct LanguageRefView {
    pub name: Seq<char>,
    pub address: Seq<char>,
}

impl View for LanguageRef {
    type V = LanguageRefView;

    open spec fn view(&self) -> LanguageRefView {
        LanguageRefView { name: self.name@, address: self.address@ }
    }
}

impl Clone for LanguageRef {
    fn clone(&self) -> (out: Self)
        ensures
            out@ == self@,
    {
        LanguageRef { name: self.name.clone(), address: self.address.clone() }
    }
}

/// An expression, by its language and its address within the language.
#[derive(Debug, PartialEq, Eq)]
pub struct ExpressionRef {
    pub language: LanguageRef,
    pub expression: String,
}

/// The mathematical value of an [`ExpressionRef`].
pub struct ExpressionRefView {
    pub language: LanguageRefView,
    pub expression: Seq<char>,
}

impl View for ExpressionRef {
    type V = ExpressionRefView;

    open spec fn view(&self) -> ExpressionRefView {
        ExpressionRefView { language: self.language@, expression: self.expression@ }
    }
}

/// A text that is neither an expression URL nor a DID.
#[derive(Debug, PartialEq, Eq)]
pub struct NotAnExpressionRef {
    pub value: String,
}

impl NotAnExpressionRef {
    /// The text shown to the caller.
    pub fn message(&self) -> (out: String)
        ensures
            out@ == "Couldn't parse string as expression URL or DID: "@ + self.value@,
    {
        let mut out = String::from_str("Couldn't parse string as expression URL or DID: ");
        out.append(self.value.as_str());
        out
    }
}

/// Whether `c` is white space: a character with the Unicode property
/// `White_Space`.
pub open spec fn spec_is_space(c: char) -> bool {
    let u = c as u32;
    ||| 0x09 <= u <= 0x0D
    ||| u == 0x20
    ||| u == 0x85
    ||| u == 0xA0
    ||| u == 0x1680
    ||| 0x2000 <= u <= 0x200A
    ||| u == 0x2028
    ||| u == 0x2029
    ||| u == 0x202F
    ||| u == 0x205F
    ||| u == 0x3000
}

/// Whether `c` ends the language part of an expression URL: a colon, a
/// caret or white space.
pub open spec fn spec_ends_language(c: char) -> bool {
    c == ':' || c == '^' || spec_is_space(c)
}

/// The length of the longest prefix of `s` that holds no character ending
/// the language part.
pub open spec fn spec_language_len(s: Seq<char>) -> int
    decreases s.len(),
{
    if s.len() == 0 || spec_ends_language(s[0]) {
        0
    } else {
        1 + spec_language_len(s.skip(1))
    }
}

/// Whether no character of `s` is white space.
pub open spec fn spec_no_space(s: Seq<char>) -> bool {
    forall|k: int| 0 <= k < s.len() ==> !spec_is_space(#[trigger] s[k])
}

/// The expression that a text refers to.
///
/// - `literal://` and anything: the value itself, in the language `literal`.
/// - A language address (one or more characters, none of them a colon, a
///   caret or white space), `://`, and one or more characters: that
///   expression of that language. The language's name is not known.
/// - `did:` and one or more characters that are no white space: the DID
///   as a whole, in the language `did`.
/// - Anything else refers to nothing.
pub open spec fn spec_expression_ref(value: Seq<char>) -> Option<ExpressionRefView> {
    let k = spec_language_len(value);
    if spec_starts_with(value, "literal://"@) {
        Some(
            ExpressionRefView {
                language: LanguageRefView { name: "literal"@, address: "literal"@ },
                expression: value.skip("literal://"@.len() as int),
            },
        )
    } else if k > 0 && spec_starts_with(value.skip(k), "://"@) && value.len() > k + "://"@.len() {
        Some(
            ExpressionRefView {
                language: LanguageRefView { name: Seq::empty(), address: value.take(k) },
                expression: value.skip(k + "://"@.len()),
            },
        )
    } else if spec_starts_with(value, "did:"@) && value.len() > "did:"@.len() && spec_no_space(
        value.skip("did:"@.len() as int),
    ) {
        Some(
            ExpressionRefView {
                language: LanguageRefView { name: Seq::empty(), address: "did"@ },
                expression: value,
            },
        )
    } else {
        None
    }
}

/// The text of an expression reference: the DID itself for the language
/// `did`, else the language's address, `://`, and the expression.
pub open spec fn spec_expression_ref_text(reference: ExpressionRefView) -> Seq<char> {
    if reference.language.address == "did"@ {
        reference.expression
    } else {
        reference.language.address + "://"@ + reference.expression
    }
}

/// The language part ends within the text, at its first ending character.
pub proof fn lemma_language_len(s: Seq<char>)
    ensures
        0 <= spec_language_len(s) <= s.len(),
        forall|k: int| 0 <= k < spec_language_len(s) ==> !spec_ends_language(s[k]),
        spec_language_len(s) < s.len() ==> spec_ends_language(s[spec_language_len(s)]),
    decreases s.len(),
{
    if s.len() > 0 && !spec_ends_language(s[0]) {
        lemma_language_len(s.skip(1));
        assert forall|k: int| 0 <= k < spec_language_len(s) implies !spec_ends_language(
            s[k],
        ) by {
            if k > 0 {
                assert(s[k] == s.skip(1)[k - 1]);
            }
        }
    }
}

/// The language part is as long as the first position that ends it.
pub proof fn lemma_language_len_is(s: Seq<char>, at: int)
    requires
        0 <= at <= s.len(),
        forall|k: int| 0 <= k < at ==> !spec_ends_language(s[k]),
        at < s.len() ==> spec_ends_language(s[at]),
    ensures
        spec_language_len(s) == at,
{
    lemma_language_len(s);
}

/// Whether `c` is white space.
pub fn is_space(c: char) -> (out: bool)
    ensures
        out == spec_is_space(c),
{
    let u: u32 = c as u32;
    (0x09 <= u && u <= 0x0D) || u == 0x20 || u == 0x85 || u == 0xA0 || u == 0x1680 || (0x2000 <= u
        && u <= 0x200A) || u == 0x2028 || u == 0x2029 || u == 0x202F || u == 0x205F || u == 0x3000
}

fn language_len(chars: &Vec<char>) -> (k: usize)
    ensures
        k == spec_language_len(chars@),
        k <= chars.len(),
{
    let mut i: usize = 0;
    while i < chars.len()
        invariant
            i <= chars.len(),
            forall|k: int| 0 <= k < i ==> !spec_ends_language(chars@[k]),
        decreases chars.len() - i,
    {
        let c = chars[i];
        if c == ':' || c == '^' || is_space(c) {
            proof {
                lemma_language_len_is(chars@, i as int);
            }
            return i;
        }
        i += 1;
    }
    proof {
        lemma_language_len_is(chars@, i as int);
    }
    i
}

fn no_space_from(chars: &Vec<char>, from: usize) -> (out: bool)
    requires
        from <= chars.len(),
    ensures
        out == spec_no_space(chars@.skip(from as int)),
{
    let mut i: usize = from;
    while i < chars.len()
        invariant
            from <= i <= chars.len(),
            forall|k: int| 0 <= k < i - from ==> !spec_is_space(#[trigger] chars@.skip(from as int)[k]),
        decreases chars.len() - i,
    {
        if is_space(chars[i]) {
            assert(chars@.skip(from as int)[i - from] == chars@[i as int]);
            return false;
        }
        i += 1;
    }
    true
}

impl ExpressionRef {
    /// Reads an expression reference from an expression URL or a DID.
    pub fn try_from(value: String) -> (out: Result<ExpressionRef, NotAnExpressionRef>)
        ensures
            out is Ok <==> spec_expression_ref(value@) is Some,
            out matches Ok(reference) ==> reference@ == spec_expression_ref(value@)->0,
            out matches Err(e) ==> e.value == value,
    {
        let chars = chars_of(value.as_str());
        assert(chars@.skip(0) =~= value@);
        if let Some(rest) = strip_prefix(&chars, 0, "literal://") {
            let expression = substring(&chars, rest, chars.len());
            assert(chars@.subrange(rest as int, chars.len() as int) =~= value@.skip(rest as int));
            return Ok(
                ExpressionRef {
                    language: LanguageRef {
                        name: String::from_str("literal"),
                        address: String::from_str("literal"),
                    },
                    expression,
                },
            );
        }
        let k = language_len(&chars);
        if k > 0 {
            if let Some(rest) = strip_prefix(&chars, k, "://") {
                if rest < chars.len() {
                    let address = substring(&chars, 0, k);
                    let expression = substring(&chars, rest, chars.len());
                    proof {
                        assert(chars@.subrange(0, k as int) =~= value@.take(k as int));
                        assert(chars@.subrange(rest as int, chars.len() as int) =~= value@.skip(
                            rest as int,
                        ));
                    }
                    return Ok(
                        ExpressionRef {
                            language: LanguageRef { name: String::new(), address },
                            expression,
                        },
                    );
                }
            }
        }
        if let Some(rest) = strip_prefix(&chars, 0, "did:") {
            if rest < chars.len() && no_space_from(&chars, rest) {
                return Ok(
                    ExpressionRef {
                        language: LanguageRef {
                            name: String::new(),
                            address: String::from_str("did"),
                        },
                        expression: value,
                    },
                );
            }
        }
        Err(NotAnExpressionRef { value })
    }

    /// The text of the reference.
    pub fn to_string(&self) -> (out: String)
        ensures
            out@ == spec_expression_ref_text(self@),
    {
        if str_eq(self.language.address.as_str(), "did") {
            return self.expression.clone();
        }
        let mut out = self.language.address.clone();
        out.append("://");
        out.append(self.expression.as_str());
        out
    }
}



/// A set of links.
#[derive(Debug, PartialEq, Eq)]
pub struct Perspective {
    pub links: Vec<LinkExpression>,
}

/// The signed link expressions among written ones: those that carry key and
/// signature, in order.
pub open spec fn spec_complete_links(inputs: Seq<LinkExpressionInput>) -> Seq<LinkExpressionView>
    decreases inputs.len(),
{
    if inputs.len() == 0 {
        Seq::empty()
    } else if spec_has_proof(inputs.last()) {
        spec_complete_links(inputs.drop_last()).push(spec_from_input(inputs.last()))
    } else {
        spec_complete_links(inputs.drop_last())
    }
}

impl Perspective {
    /// The perspective that `input` describes: its links that carry key and
    /// signature, each in normal form. The others are left out.
    pub fn from_input(input: PerspectiveInput) -> (out: Self)
        ensures
            views(out.links@) == spec_complete_links(input.links@),
    {
        let mut links: Vec<LinkExpression> = Vec::new();
        let mut i: usize = 0;
        proof {
            assert(input.links@.take(0) =~= Seq::<LinkExpressionInput>::empty());
            assert(views(links@) =~= Seq::<LinkExpressionView>::empty());
        }
        while i < input.links.len()
            invariant
                i <= input.links.len(),
                views(links@) == spec_complete_links(input.links@.take(i as int)),
            decreases input.links.len() - i,
        {
            proof {
                assert(input.links@.take(i + 1).drop_last() =~= input.links@.take(i as int));
                assert(input.links@.take(i + 1).last() == input.links@[i as int]);
            }
            match link_expression_of(&input.links[i]) {
                Ok(link) => {
                    let ghost before = links@;
                    links.push(link);
                    assert(views(links@) =~= views(before).push(link@));
                },
                Err(_) => {},
            }
            i += 1;
        }
        proof {
            assert(input.links@.take(i as int) =~= input.links@);
        }
        Perspective { links }
    }
}

/// A shared perspective: the language that syncs it, and what is said of it.
#[derive(Debug, PartialEq, Eq)]
pub struct Neighbourhood {
    pub link_language: String,
    pub meta: Perspective,
}

/// A signed neighbourhood.
#[derive(Debug, PartialEq, Eq)]
pub struct NeighbourhoodExpression {
    pub author: String,
    pub data: Neighbourhood,
    pub proof: ExpressionProof,
    pub timestamp: String,
}

/// The atomic unit of change of a perspective's link set.
#[derive(Debug, PartialEq, Eq)]
pub struct PerspectiveDiff {
    pub additions: Vec<LinkExpression>,
    pub removals: Vec<LinkExpression>,
}

impl PerspectiveDiff {
    /// A change that only adds links.
    pub fn from_additions(additions: Vec<LinkExpression>) -> (out: PerspectiveDiff)
        ensures
            out.additions == additions,
            out.removals@ == Seq::<LinkExpression>::empty(),
    {
        PerspectiveDiff { additions, removals: Vec::new() }
    }

    /// A change that only removes links.
    pub fn from_removals(removals: Vec<LinkExpression>) -> (out: PerspectiveDiff)
        ensures
            out.additions@ == Seq::<LinkExpression>::empty(),
            out.removals == removals,
    {
        PerspectiveDiff { additions: Vec::new(), removals }
    }

    /// A change that adds and removes links.
    pub fn from(additions: Vec<LinkExpression>, removals: Vec<LinkExpression>) -> (out:
        PerspectiveDiff)
        ensures
            out == (PerspectiveDiff { additions, removals }),
    {
        PerspectiveDiff { additions, removals }
    }
}

/// A notification that an application asked to install.
#[derive(Debug, Clone, PartialEq, Eq, PartialOrd, Ord)]
pub struct Notification {
    pub id: String,
    pub granted: bool,
    pub description: String,
    pub app_name: String,
    pub app_url: String,
    pub app_icon_path: String,
    pub trigger: String,
    pub perspective_ids: Vec<String>,
    pub webhook_url: String,
    pub webhook_auth: String,
}

impl Notification {
    /// The notification that `input` asks for, under the identifier `id`.
    /// It is not granted yet.
    pub fn from_input_and_id(id: String, input: NotificationInput) -> (out: Self)
        ensures
            out == (Notification {
                id,
                granted: false,
                description: input.description,
                app_name: input.app_name,
                app_url: input.app_url,
                app_icon_path: input.app_icon_path,
                trigger: input.trigger,
                perspective_ids: input.perspective_ids,
                webhook_url: input.webhook_url,
                webhook_auth: input.webhook_auth,
            }),
    {
        Notification {
            id,
            granted: false,
            description: input.description,
            app_name: input.app_name,
            app_url: input.app_url,
            app_icon_path: input.app_icon_path,
            trigger: input.trigger,
            perspective_ids: input.perspective_ids,
            webhook_url: input.webhook_url,
            webhook_auth: input.webhook_auth,
        }
    }
}

/// A notification that fired, with the perspective and the match that
/// fired it.
#[derive(Debug, Clone, PartialEq, Eq)]
pub struct TriggeredNotification {
    pub notification: Notification,
    pub perspective_id: String,
    pub trigger_match: String,
}

/// The kinds of model API.
#[derive(Debug, Clone, Copy, PartialEq, Eq, Structural)]
pub enum ModelApiType {
    OpenAi,
}

/// A model behind an API. The base URL is kept as text.
#[derive(Debug, Clone, PartialEq, Eq)]
pub struct ModelApi {
    pub base_url: String,
    pub api_key: String,
    pub api_type: ModelApiType,
}

/// A model that runs locally.
#[derive(Debug, Clone, PartialEq, Eq)]
pub struct LocalModel {
    pub file_name: String,
    pub tokenizer_source: String,
    pub model_parameters: String,
}

/// A model, behind an API or local.
#[derive(Debug, Clone, PartialEq, Eq)]
pub struct Model {
    pub name: String,
    pub api: Option<ModelApi>,
    pub local: Option<LocalModel>,
}



/// The text of an expression reference reads back as the text it was read
/// from, except for a text that begins with `did://`: that one is read as
/// an expression of the language `did`, whose text is the expression alone.
pub proof fn law_expression_ref_round_trip(value: Seq<char>)
    requires
        spec_expression_ref(value) is Some,
        !spec_starts_with(value, "did://"@),
    ensures
        spec_expression_ref_text(spec_expression_ref(value)->0) == value,
{
    reveal_strlit("literal://");
    reveal_strlit("literal");
    reveal_strlit("://");
    reveal_strlit("did://");
    reveal_strlit("did:");
    reveal_strlit("did");
    let reference = spec_expression_ref(value)->0;
    let k = spec_language_len(value);
    lemma_language_len(value);
    if spec_starts_with(value, "literal://"@) {
        assert("literal"@ + "://"@ =~= "literal://"@);
        assert("literal"@ != "did"@) by {
            assert("literal"@.len() != "did"@.len());
        }
        assert(value =~= value.take(10) + value.skip(10));
        assert(reference.language.address + "://"@ + reference.expression =~= value);
    } else if k > 0 && spec_starts_with(value.skip(k), "://"@) && value.len() > k + 3 {
        let address = value.take(k);
        assert(value.skip(k).take(3) =~= "://"@);
        assert(value =~= address + "://"@ + value.skip(k + 3)) by {
            assert forall|i: int| 0 <= i < value.len() implies value[i] == (address + "://"@
                + value.skip(k + 3))[i] by {
                if k <= i < k + 3 {
                    assert(value.skip(k).take(3)[i - k] == value[i]);
                }
            }
        }
        if address == "did"@ {
            assert(k == 3);
            assert(value.take(6) =~= "did://"@) by {
                assert forall|i: int| 0 <= i < 6 implies value.take(6)[i] == "did://"@[i] by {
                    if i < 3 {
                        assert(address[i] == value[i]);
                    } else {
                        assert(value.skip(k).take(3)[i - 3] == value[i]);
                    }
                }
            }
        }
    } else {
    }
}


/// What a signature is checked against does not tell an empty predicate
/// from an absent one: two links that differ only in that give the same
/// envelope, so a signature made over one verifies over the other.
pub proof fn law_signed_subject_is_normal(
    first: DecoratedLinkExpression,
    second: DecoratedLinkExpression,
)
    requires
        first.author@ == second.author@,
        first.timestamp@ == second.timestamp@,
        first.proof.key@ == second.proof.key@,
        first.proof.signature@ == second.proof.signature@,
        spec_normalize(first.data@) == spec_normalize(second.data@),
    ensures
        first.spec_signed_subject() == second.spec_signed_subject(),
        first.spec_signed_subject().data == spec_normalize(first.spec_signed_subject().data),
{
}

} // verus!

//! Rendering the notification body and subject.
//!
//! The body is one fixed HTML template with four named placeholders, filled
//! by single-pass substitution with the submission's `name`, `email`,
//! `telephone` and `detail` values, each HTML-escaped. No engine, loops or
//! conditionals: the rendered body is exactly the five fixed template
//! pieces with the four escaped field values between them, so rendering
//! cannot fail once the submission is parsed.

use crate::escape::escaped;
use crate::escape::html_escape;
use crate::submission::Submission;
use vstd::prelude::*;

verus! {

/// Template piece before the `name` placeholder.
pub open spec fn tpl_head() -> Seq<char> {
    "<h1>"@
}

/// Template piece between the `name` and `email` placeholders.
pub open spec fn tpl_after_name() -> Seq<char> {
    "</h1><p>E Mail: "@
}

/// Template piece between the `email` and `telephone` placeholders.
pub open spec fn tpl_after_email() -> Seq<char> {
    "</p><p>Telefon: "@
}

/// Template piece between the `telephone` and `detail` placeholders.
pub open spec fn tpl_after_telephone() -> Seq<char> {
    "</p><p>Detail:</p><p>"@
}

/// Template piece after the `detail` placeholder.
pub open spec fn tpl_tail() -> Seq<char> {
    "</p>"@
}

/// The rendered body for the four (raw, unescaped) field values.
pub open spec fn body_from_fields(
    name: Seq<char>,
    email: Seq<char>,
    telephone: Seq<char>,
    detail: Seq<char>,
) -> Seq<char> {
    tpl_head() + escaped(name) + tpl_after_name() + escaped(email) + tpl_after_email() + escaped(
        telephone,
    ) + tpl_after_telephone() + escaped(detail) + tpl_tail()
}

/// The rendered body of a submission.
pub open spec fn body_of(s: Submission) -> Seq<char> {
    body_from_fields(s.name@, s.email@, s.telephone@, s.detail@)
}

/// The fixed subject line of every notification.
pub open spec fn subject_of() -> Seq<char> {
    "[christopherkolbe.de] Kontakt"@
}

/// Render the notification body: the fixed template with the four field
/// values substituted, each HTML-escaped.
pub fn render_body(s: &Submission) -> (r: String)
    ensures
        r@ == body_of(*s),
{
    let mut out = String::from_str("<h1>");
    let name = html_escape(s.name.as_str());
    out.append(name.as_str());
    out.append("</h1><p>E Mail: ");
    let email = html_escape(s.email.as_str());
    out.append(email.as_str());
    out.append("</p><p>Telefon: ");
    let telephone = html_escape(s.telephone.as_str());
    out.append(telephone.as_str());
    out.append("</p><p>Detail:</p><p>");
    let detail = html_escape(s.detail.as_str());
    out.append(detail.as_str());
    out.append("</p>");
    proof {
        assert(out@ =~= body_of(*s));
    }
    out
}

/// The fixed subject line.
pub fn subject_line() -> (r: String)
    ensures
        r@ == subject_of(),
{
    String::from_str("[christopherkolbe.de] Kontakt")
}

/// Law: the rendered body embeds exactly the escaped values of the four
/// submitted fields, each recoverable as the subrange between the fixed
/// template pieces, and its length accounts for every character — so no
/// other submitted value (in particular not the verification token)
/// appears anywhere in the body.
pub proof fn lemma_body_embeds_exactly_the_fields(s: Submission)
    ensures
        body_of(s).len() == tpl_head().len() + escaped(s.name@).len() + tpl_after_name().len()
            + escaped(s.email@).len() + tpl_after_email().len() + escaped(s.telephone@).len()
            + tpl_after_telephone().len() + escaped(s.detail@).len() + tpl_tail().len(),
        body_of(s).subrange(
            tpl_head().len() as int,
            tpl_head().len() as int + escaped(s.name@).len(),
        ) == escaped(s.name@),
        body_of(s).subrange(
            tpl_head().len() as int + escaped(s.name@).len() + tpl_after_name().len(),
            tpl_head().len() as int + escaped(s.name@).len() + tpl_after_name().len() + escaped(
                s.email@,
            ).len(),
        ) == escaped(s.email@),
        body_of(s).subrange(
            tpl_head().len() as int + escaped(s.name@).len() + tpl_after_name().len() + escaped(
                s.email@,
            ).len() + tpl_after_email().len(),
            tpl_head().len() as int + escaped(s.name@).len() + tpl_after_name().len() + escaped(
                s.email@,
            ).len() + tpl_after_email().len() + escaped(s.telephone@).len(),
        ) == escaped(s.telephone@),
        body_of(s).subrange(
            tpl_head().len() as int + escaped(s.name@).len() + tpl_after_name().len() + escaped(
                s.email@,
            ).len() + tpl_after_email().len() + escaped(s.telephone@).len()
                + tpl_after_telephone().len(),
            tpl_head().len() as int + escaped(s.name@).len() + tpl_after_name().len() + escaped(
                s.email@,
            ).len() + tpl_after_email().len() + escaped(s.telephone@).len()
                + tpl_after_telephone().len() + escaped(s.detail@).len(),
        ) == escaped(s.detail@),
{
    let b = body_of(s);
    let n0 = tpl_head().len() as int;
    let n1 = n0 + escaped(s.name@).len();
    let n2 = n1 + tpl_after_name().len();
    let n3 = n2 + escaped(s.email@).len();
    let n4 = n3 + tpl_after_email().len();
    let n5 = n4 + escaped(s.telephone@).len();
    let n6 = n5 + tpl_after_telephone().len();
    let n7 = n6 + escaped(s.detail@).len();
    assert(b.subrange(n0, n1) =~= escaped(s.name@));
    assert(b.subrange(n2, n3) =~= escaped(s.email@));
    assert(b.subrange(n4, n5) =~= escaped(s.telephone@));
    assert(b.subrange(n6, n7) =~= escaped(s.detail@));
}

} // verus!

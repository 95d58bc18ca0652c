//! E-mail content: the sender's mailbox and the filling of `{{key}}`
//! placeholders in subject and body templates.
use vstd::prelude::*;
use crate::text::{replaced, replace_all, join3, own};
use crate::notifications::config::EmailConfig;

verus! {

/// The placeholder that stands for `key` in a template: `{{key}}`.
pub open spec fn placeholder(key: Seq<char>) -> Seq<char> {
    seq!['{', '{'] + key + seq!['}', '}']
}

/// `template` with the placeholders of `data` filled in, one key after the
/// other in the order given.
pub open spec fn filled(template: Seq<char>, data: Seq<(String, String)>) -> Seq<char>
    decreases data.len(),
{
    if data.len() == 0 {
        template
    } else {
        replaced(filled(template, data.drop_last()), placeholder(data.last().0@), data.last().1@)
    }
}

/// The sender's mailbox as text: `name <address>`.
pub open spec fn mailbox_text(name: Seq<char>, address: Seq<char>) -> Seq<char> {
    name + seq![' ', '<'] + address + seq!['>']
}

/// `template` with every `{{key}}` of `data` replaced by its value, one key
/// after the other in the order given.
pub fn fill_template(template: &str, data: &Vec<(String, String)>) -> (r: String)
    ensures
        r@ == filled(template@, data@),
{
    let mut out = own(template);
    let mut i: usize = 0;
    assert(data@.subrange(0, 0) =~= Seq::<(String, String)>::empty());
    while i < data.len()
        invariant
            i <= data@.len(),
            out@ == filled(template@, data@.subrange(0, i as int)),
        decreases data.len() - i,
    {
        let ph = join3("{{", data[i].0.as_str(), "}}");
        proof {
            reveal_strlit("{{");
            reveal_strlit("}}");
            assert(ph@ =~= placeholder(data@[i as int].0@));
            assert(data@.subrange(0, i + 1).drop_last() =~= data@.subrange(0, i as int));
        }
        out = replace_all(out.as_str(), ph.as_str(), data[i].1.as_str());
        i = i + 1;
    }
    assert(data@.subrange(0, data@.len() as int) =~= data@);
    out
}

/// The subject and body of a templated e-mail.
pub fn render_templated_email(
    template_data: &Vec<(String, String)>,
    subject_template: &str,
    body_template: &str,
) -> (r: (String, String))
    ensures
        r.0@ == filled(subject_template@, template_data@),
        r.1@ == filled(body_template@, template_data@),
{
    (fill_template(subject_template, template_data), fill_template(body_template, template_data))
}

impl EmailConfig {
    /// The sender's mailbox, `from_name <from_email>`.
    pub fn from_mailbox(&self) -> (r: String)
        ensures
            r@ == mailbox_text(self.from_name@, self.from_email@),
    {
        let r = join3(self.from_name.as_str(), " <", self.from_email.as_str());
        let mut r2 = r;
        crate::text::push_char(&mut r2, '>');
        proof {
            reveal_strlit(" <");
            assert(r2@ =~= mailbox_text(self.from_name@, self.from_email@));
        }
        r2
    }
}

} // verus!

use vstd::prelude::*;

pub mod dialog;
pub mod hp;
pub mod panel;
pub mod summary;

verus! {

/// How far a download has come, as counted by the bytes read so far.
#[derive(Debug, Clone, Copy, PartialEq, Eq)]
pub enum Progress {
    /// The download was asked for; nothing has been read yet.
    Started,
    /// `read` bytes of `total` have been read.
    Read { read: u64, total: u64 },
}

/// The markup that shows `text` in bold.
pub open spec fn bold_spec(text: Seq<char>) -> Seq<char> {
    "<b>"@ + text + "</b>"@
}

/// The bold markup of a text is that text, unchanged, between an opening and
/// a closing bold tag.
pub proof fn lemma_bold_wraps(text: Seq<char>)
    ensures
        bold_spec(text).len() == text.len() + 7,
        bold_spec(text).subrange(0, 3) == "<b>"@,
        bold_spec(text).subrange(3, 3 + text.len() as int) == text,
        bold_spec(text).subrange(3 + text.len() as int, text.len() + 7 as int) == "</b>"@,
{
    reveal_strlit("<b>");
    reveal_strlit("</b>");
    assert(bold_spec(text).subrange(0, 3) =~= "<b>"@);
    assert(bold_spec(text).subrange(3, 3 + text.len() as int) =~= text);
    assert(bold_spec(text).subrange(3 + text.len() as int, text.len() + 7 as int) =~= "</b>"@);
}

/// Wraps `text` in a bold tag, as the view headers and titles are shown.
pub fn bold_markup(text: &str) -> (markup: String)
    ensures
        markup@ == bold_spec(text@),
{
    let mut markup = String::from_str("<b>");
    markup.append(text);
    markup.append("</b>");
    markup
}

} // verus!

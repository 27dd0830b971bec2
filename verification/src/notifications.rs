use vstd::prelude::*;
use vstd::string::StringExecFns;

verus! {

// Desktop notification content. Delivery belongs to the surrounding
// program; what the notification says is composed and specified here.

/// The body a notification shows: the content alone; with a title, the
/// title alone when the content is empty, else the content, a line
/// break, and the title.
pub open spec fn sp_notification_body(body_content: Seq<char>, title: Option<Seq<char>>) -> Seq<
    char,
> {
    match title {
        Some(t) => if body_content.len() == 0 {
            t
        } else {
            body_content + "\n"@ + t
        },
        None => body_content,
    }
}

/// Composes a notification body, exactly as `sp_notification_body`
/// says.
pub fn notification_body(body_content: &str, title: Option<&str>) -> (r: String)
    ensures
        title matches Some(t) ==> r@ == sp_notification_body(body_content@, Some(t@)),
        title is None ==> r@ == sp_notification_body(body_content@, None),
{
    match title {
        Some(t) => {
            if body_content.is_empty() {
                t.to_owned()
            } else {
                let mut out = body_content.to_owned();
                out.append("\n");
                out.append(t);
                out
            }
        },
        None => body_content.to_owned(),
    }
}

} // verus!

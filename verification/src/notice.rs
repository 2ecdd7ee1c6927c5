//! What a run tells its user, line by line.

use vstd::prelude::*;

verus! {

/// One line of output.
#[derive(Debug, PartialEq, Eq)]
pub enum Notice {
    /// The credential that was resolved, shown as a diagnostic.
    Credential { token: String },
    /// The repository already has the name the rule gives it.
    Unchanged { name: String },
    /// The user did not consent to this rename.
    Declined { name: String },
    /// A rename is about to be requested without asking.
    Starting { name: String, new_name: String },
    /// The service confirmed the rename.
    Renamed { name: String, new_name: String },
    /// The service refused the rename, and answered with `body`.
    Failed { name: String, body: String },
}

/// A `Notice` with its text as sequences of characters.
#[verifier::ext_equal]
pub enum NoticeView {
    Credential { token: Seq<char> },
    Unchanged { name: Seq<char> },
    Declined { name: Seq<char> },
    Starting { name: Seq<char>, new_name: Seq<char> },
    Renamed { name: Seq<char>, new_name: Seq<char> },
    Failed { name: Seq<char>, body: Seq<char> },
}

impl View for Notice {
    type V = NoticeView;

    open spec fn view(&self) -> NoticeView {
        match *self {
            Notice::Credential { token } => NoticeView::Credential { token: token@ },
            Notice::Unchanged { name } => NoticeView::Unchanged { name: name@ },
            Notice::Declined { name } => NoticeView::Declined { name: name@ },
            Notice::Starting { name, new_name } => NoticeView::Starting {
                name: name@,
                new_name: new_name@,
            },
            Notice::Renamed { name, new_name } => NoticeView::Renamed {
                name: name@,
                new_name: new_name@,
            },
            Notice::Failed { name, body } => NoticeView::Failed { name: name@, body: body@ },
        }
    }
}

/// The views of a list of notices, in order.
pub open spec fn notice_views(notices: Seq<Notice>) -> Seq<NoticeView> {
    notices.map_values(|notice: Notice| notice@)
}

/// The announcement of a rename, which opens both the notice that one starts
/// and the question whether it should.
pub open spec fn announcement(name: Seq<char>, new_name: Seq<char>) -> Seq<char> {
    "Renaming repo "@ + name + " to "@ + new_name
}

/// The question put to the user before a rename. It ends in a space, not in
/// a line break: the answer is typed behind it.
pub open spec fn question(name: Seq<char>, new_name: Seq<char>) -> Seq<char> {
    announcement(name, new_name) + ", continue? [y/n] "@
}

impl NoticeView {
    /// The line that this notice prints.
    pub open spec fn text(self) -> Seq<char> {
        match self {
            NoticeView::Credential { token } => "token is: "@ + token,
            NoticeView::Unchanged { name } => "Skipping repo "@ + name
                + ", no change after formatting"@,
            NoticeView::Declined { name } => "Skipping "@ + name,
            NoticeView::Starting { name, new_name } => announcement(name, new_name),
            NoticeView::Renamed { name, new_name } => "Successfully renamed repo "@ + name
                + " to "@ + new_name,
            NoticeView::Failed { name, body } => "Failed to rename repo "@ + name
                + ", server response: "@ + body,
        }
    }
}

fn announce(name: &str, new_name: &str) -> (line: String)
    ensures
        line@ == announcement(name@, new_name@),
{
    let mut line = String::from_str("Renaming repo ");
    line.append(name);
    line.append(" to ");
    line.append(new_name);
    line
}

/// Writes the question whether `name` should become `new_name`.
pub fn prompt(name: &str, new_name: &str) -> (line: String)
    ensures
        line@ == question(name@, new_name@),
{
    let mut line = announce(name, new_name);
    line.append(", continue? [y/n] ");
    line
}

impl Notice {
    /// Writes the line that this notice prints.
    pub fn text(&self) -> (line: String)
        ensures
            line@ == self@.text(),
    {
        match self {
            Notice::Credential { token } => {
                let mut line = String::from_str("token is: ");
                line.append(token.as_str());
                line
            },
            Notice::Unchanged { name } => {
                let mut line = String::from_str("Skipping repo ");
                line.append(name.as_str());
                line.append(", no change after formatting");
                line
            },
            Notice::Declined { name } => {
                let mut line = String::from_str("Skipping ");
                line.append(name.as_str());
                line
            },
            Notice::Starting { name, new_name } => announce(name.as_str(), new_name.as_str()),
            Notice::Renamed { name, new_name } => {
                let mut line = String::from_str("Successfully renamed repo ");
                line.append(name.as_str());
                line.append(" to ");
                line.append(new_name.as_str());
                line
            },
            Notice::Failed { name, body } => {
                let mut line = String::from_str("Failed to rename repo ");
                line.append(name.as_str());
                line.append(", server response: ");
                line.append(body.as_str());
                line
            },
        }
    }
}

} // verus!

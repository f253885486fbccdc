use vstd::prelude::*;
use vstd::string::*;


verus! {

/// The answer a dialog gives back.
#[derive(Debug, Clone, Copy, PartialEq, Eq, Structural)]
pub enum DialogResult {
    Unknown,
    OK,
    Cancel,
    Abort,
    Retry,
    Ignore,
    Yes,
    No,
    Tryagain,
    Continue,
}

impl DialogResult {
    /// The result a Win32 dialog button identifier (`IDOK`, `IDCANCEL`, ...) stands for.
    pub open spec fn of_dialog_id(id: u16) -> DialogResult {
        if id == 1 {
            DialogResult::OK
        } else if id == 2 {
            DialogResult::Cancel
        } else if id == 3 {
            DialogResult::Abort
        } else if id == 4 {
            DialogResult::Retry
        } else if id == 5 {
            DialogResult::Ignore
        } else if id == 6 {
            DialogResult::Yes
        } else if id == 7 {
            DialogResult::No
        } else if id == 10 {
            DialogResult::Tryagain
        } else if id == 11 {
            DialogResult::Continue
        } else {
            DialogResult::Unknown
        }
    }

    /// Maps the identifier of the button that closed a task dialog to its result.
    pub fn from_dialog_id(id: u16) -> (res: DialogResult)
        ensures
            res == Self::of_dialog_id(id),
    {
        if id == 1 {
            DialogResult::OK
        } else if id == 2 {
            DialogResult::Cancel
        } else if id == 3 {
            DialogResult::Abort
        } else if id == 4 {
            DialogResult::Retry
        } else if id == 5 {
            DialogResult::Ignore
        } else if id == 6 {
            DialogResult::Yes
        } else if id == 7 {
            DialogResult::No
        } else if id == 10 {
            DialogResult::Tryagain
        } else if id == 11 {
            DialogResult::Continue
        } else {
            DialogResult::Unknown
        }
    }

    /// The variant's name.
    pub fn as_str(&self) -> (res: &'static str)
        ensures
            res@ == (match *self {
                DialogResult::Unknown => "Unknown"@,
                DialogResult::OK => "Ok"@,
                DialogResult::Cancel => "Cancel"@,
                DialogResult::Abort => "Abort"@,
                DialogResult::Retry => "Retry"@,
                DialogResult::Ignore => "Ignore"@,
                DialogResult::Yes => "Yes"@,
                DialogResult::No => "No"@,
                DialogResult::Tryagain => "Tryagain"@,
                DialogResult::Continue => "Continue"@,
            }),
    {
        match *self {
            DialogResult::Unknown => "Unknown",
            DialogResult::OK => "Ok",
            DialogResult::Cancel => "Cancel",
            DialogResult::Abort => "Abort",
            DialogResult::Retry => "Retry",
            DialogResult::Ignore => "Ignore",
            DialogResult::Yes => "Yes",
            DialogResult::No => "No",
            DialogResult::Tryagain => "Tryagain",
            DialogResult::Continue => "Continue",
        }
    }
}

/// One button of a dialog: the result it gives, its label (a first line, and optionally a
/// second line after `\n`), and whether it is the highlighted one.
pub struct DialogButtonSpec {
    pub result: DialogResult,
    pub label: String,
    pub is_primary: bool,
}

impl DialogButtonSpec {
    pub fn primary(result: DialogResult, label: &str) -> (res: Self)
        ensures
            res.result == result,
            res.label@ == label@,
            res.is_primary,
    {
        DialogButtonSpec { result, label: String::from_str(label), is_primary: true }
    }

    pub fn secondary(result: DialogResult, label: &str) -> (res: Self)
        ensures
            res.result == result,
            res.label@ == label@,
            !res.is_primary,
    {
        DialogButtonSpec { result, label: String::from_str(label), is_primary: false }
    }
}

/// Everything a dialog shows.
pub struct DialogOptions {
    pub title: String,
    pub header: Option<String>,
    pub body: String,
    pub buttons: Vec<DialogButtonSpec>,
    pub footer_text: Option<String>,
    pub footer_link: Option<String>,
}

/// Whether one of the buttons answers `Cancel`.
pub open spec fn has_cancel_button(buttons: Seq<DialogButtonSpec>) -> bool {
    exists|i: int| 0 <= i < buttons.len() && #[trigger] buttons[i].result == DialogResult::Cancel
}

/// The answer of a dialog closed without pressing one of its buttons: `Cancel` where a button
/// offers it, `Ok` otherwise.
pub open spec fn default_result_of(buttons: Seq<DialogButtonSpec>) -> DialogResult {
    if has_cancel_button(buttons) {
        DialogResult::Cancel
    } else {
        DialogResult::OK
    }
}

/// The answer of a dialog closed without pressing one of its buttons.
pub fn default_dialog_result(opts: &DialogOptions) -> (res: DialogResult)
    ensures
        res == default_result_of(opts.buttons@),
{
    let n = opts.buttons.len();
    let mut i: usize = 0;
    while i < n
        invariant
            n == opts.buttons@.len(),
            i <= n,
            forall|j: int| 0 <= j < i ==> opts.buttons@[j].result != DialogResult::Cancel,
        decreases n - i,
    {
        if opts.buttons[i].result == DialogResult::Cancel {
            return DialogResult::Cancel;
        }
        i = i + 1;
    }
    DialogResult::OK
}

/// The result a dialog reports once closed: the one chosen, or else the default.
pub fn final_dialog_result(chosen: Option<DialogResult>, opts: &DialogOptions) -> (res:
    DialogResult)
    ensures
        res == (match chosen {
            Some(r) => r,
            None => default_result_of(opts.buttons@),
        }),
{
    match chosen {
        Some(r) => r,
        None => default_dialog_result(opts),
    }
}

/// `k` is the position of the first line break of `s`.
pub open spec fn is_first_newline(s: Seq<char>, k: int) -> bool {
    &&& 0 <= k < s.len()
    &&& s[k] == '\n'
    &&& forall|j: int| 0 <= j < k ==> s[j] != '\n'
}

/// Splits a button label at its first line break into the main text and the sub text.
pub fn split_button_label(label: &str) -> (res: (String, Option<String>))
    ensures
        !label@.contains('\n') ==> res.0@ == label@ && res.1 is None,
        label@.contains('\n') ==> exists|k: int|
            #![trigger is_first_newline(label@, k)]
            {
                &&& is_first_newline(label@, k)
                &&& res.0@ == label@.take(k)
                &&& res.1 matches Some(t) && t@ == label@.skip(k + 1)
            },
{
    let n = label.unicode_len();
    let mut i: usize = 0;
    while i < n
        invariant
            n == label@.len(),
            i <= n,
            forall|j: int| 0 <= j < i ==> label@[j] != '\n',
        decreases n - i,
    {
        if label.get_char(i) == '\n' {
            let head = label.substring_char(0, i);
            let tail = label.substring_char(i + 1, n);
            proof {
                assert(is_first_newline(label@, i as int));
                assert(head@ =~= label@.take(i as int));
                assert(tail@ =~= label@.skip(i + 1));
            }
            return (String::from_str(head), Some(String::from_str(tail)));
        }
        i = i + 1;
    }
    proof {
        assert(!label@.contains('\n'));
    }
    (String::from_str(label), None)
}

/// Whether a header is drawn as a single line (it holds no line break).
pub fn is_single_line(text: &str) -> (res: bool)
    ensures
        res == !text@.contains('\n'),
{
    let n = text.unicode_len();
    let mut i: usize = 0;
    while i < n
        invariant
            n == text@.len(),
            i <= n,
            forall|j: int| 0 <= j < i ==> text@[j] != '\n',
        decreases n - i,
    {
        if text.get_char(i) == '\n' {
            assert(text@[i as int] == '\n');
            return false;
        }
        i = i + 1;
    }
    true
}

/// Splitting a label at its first line break and joining the two parts with a line break
/// gives the label back; the main part holds no line break.
pub proof fn lemma_split_rejoins(label: Seq<char>, k: int)
    requires
        is_first_newline(label, k),
    ensures
        label.take(k) + seq!['\n'] + label.skip(k + 1) == label,
        !label.take(k).contains('\n'),
{
    assert(label.take(k) + seq!['\n'] + label.skip(k + 1) =~= label);
    if label.take(k).contains('\n') {
        let j = choose|j: int| 0 <= j < label.take(k).len() && label.take(k)[j] == '\n';
        assert(label[j] == '\n');
    }
}

} // verus!

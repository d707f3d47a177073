use vstd::prelude::*;

verus! {

/// A request read from the command line. Positions are counted from 1, as the
/// user writes them.
pub enum Command {
    /// Too few arguments: show how the program is used.
    Usage,
    /// List the notes, all of them or those of one category.
    List { filter: Option<String> },
    /// Replace text and category of the note at `position`.
    Edit { position: usize, text: String, category: String },
    /// Remove the note at `position`.
    Remove { position: usize },
    /// Append a note.
    Add { text: String, category: String },
    /// `--edit` without the shape `INDEX text : category`.
    EditUsage,
    /// `--remove` without an index.
    RemoveUsage,
    /// A note without the shape `text : category`.
    AddUsage,
    /// The index given to `--edit` is not a number.
    BadEditIndex,
    /// The index given to `--remove` is not a number.
    BadRemoveIndex,
}

/// The content of a command.
pub enum CommandView {
    Usage,
    List { filter: Option<Seq<char>> },
    Edit { position: nat, text: Seq<char>, category: Seq<char> },
    Remove { position: nat },
    Add { text: Seq<char>, category: Seq<char> },
    EditUsage,
    RemoveUsage,
    AddUsage,
    BadEditIndex,
    BadRemoveIndex,
}

impl View for Command {
    type V = CommandView;

    open spec fn view(&self) -> CommandView {
        match self {
            Command::Usage => CommandView::Usage,
            Command::List { filter } => CommandView::List {
                filter: match filter {
                    None => None,
                    Some(c) => Some(c@),
                },
            },
            Command::Edit { position, text, category } => CommandView::Edit {
                position: *position as nat,
                text: text@,
                category: category@,
            },
            Command::Remove { position } => CommandView::Remove { position: *position as nat },
            Command::Add { text, category } => CommandView::Add { text: text@, category: category@ },
            Command::EditUsage => CommandView::EditUsage,
            Command::RemoveUsage => CommandView::RemoveUsage,
            Command::AddUsage => CommandView::AddUsage,
            Command::BadEditIndex => CommandView::BadEditIndex,
            Command::BadRemoveIndex => CommandView::BadRemoveIndex,
        }
    }
}

/// `s` without the double quotes that lead it.
pub open spec fn strip_leading_quotes(s: Seq<char>) -> Seq<char>
    decreases s.len(),
{
    if s.len() > 0 && s[0] == '"' {
        strip_leading_quotes(s.drop_first())
    } else {
        s
    }
}

/// `s` without the double quotes that end it.
pub open spec fn strip_trailing_quotes(s: Seq<char>) -> Seq<char>
    decreases s.len(),
{
    if s.len() > 0 && s.last() == '"' {
        strip_trailing_quotes(s.drop_last())
    } else {
        s
    }
}

/// `s` without the double quotes at either end.
pub open spec fn unquoted(s: Seq<char>) -> Seq<char> {
    strip_trailing_quotes(strip_leading_quotes(s))
}

pub open spec fn is_digit(c: char) -> bool {
    '0' <= c <= '9'
}

/// The number that a nonempty run of decimal digits stands for.
pub open spec fn digits_value(s: Seq<char>) -> nat
    decreases s.len(),
{
    if s.len() == 0 {
        0
    } else {
        digits_value(s.drop_last()) * 10 + (s.last() as nat - '0' as nat) as nat
    }
}

/// The number written in `s`: an optional `+` and then one or more decimal
/// digits, and nothing else.
pub open spec fn decimal(s: Seq<char>) -> Option<nat> {
    let d = if s.len() > 0 && s[0] == '+' {
        s.drop_first()
    } else {
        s
    };
    if d.len() > 0 && forall|k: int| 0 <= k < d.len() ==> is_digit(#[trigger] d[k]) {
        Some(digits_value(d))
    } else {
        None
    }
}

/// The index written in `s`, where it is a number that fits in `usize`.
pub open spec fn index_of(s: Seq<char>) -> Option<nat> {
    match decimal(s) {
        Some(v) => if v <= usize::MAX {
            Some(v)
        } else {
            None
        },
        None => None,
    }
}

/// The command that the arguments `a` ask for; `a[0]` is the program's name.
pub open spec fn command_of(a: Seq<Seq<char>>) -> CommandView {
    if a.len() < 2 {
        CommandView::Usage
    } else if a[1] == "--list"@ || a[1] == "-l"@ {
        CommandView::List {
            filter: if a.len() > 2 {
                Some(a[2])
            } else {
                None
            },
        }
    } else if a[1] == "--edit"@ {
        if a.len() < 6 || a[4] != ":"@ {
            CommandView::EditUsage
        } else {
            match index_of(a[2]) {
                None => CommandView::BadEditIndex,
                Some(p) => CommandView::Edit { position: p, text: unquoted(a[3]), category: a[5] },
            }
        }
    } else if a[1] == "--remove"@ || a[1] == "--r"@ {
        if a.len() < 3 {
            CommandView::RemoveUsage
        } else {
            match index_of(a[2]) {
                None => CommandView::BadRemoveIndex,
                Some(p) => CommandView::Remove { position: p },
            }
        }
    } else if a.len() < 4 || a[2] != ":"@ {
        CommandView::AddUsage
    } else {
        CommandView::Add { text: unquoted(a[1]), category: a[3] }
    }
}

/// The arguments as character sequences.
pub open spec fn args_view(args: Seq<String>) -> Seq<Seq<char>> {
    args.map_values(|s: String| s@)
}

/// Relies on str::trim_matches with a char pattern: removes every leading and
/// every trailing occurrence of the character.
#[verifier::external_body]
fn trim_quotes(s: &str) -> (r: String)
    ensures
        r@ == unquoted(s@),
{
    s.trim_matches('"').to_string()
}

/// Relies on usize's FromStr: accepts an optional `+` followed by decimal
/// digits, and fails on anything else or on a value that does not fit.
#[verifier::external_body]
fn parse_index(s: &str) -> (r: Option<usize>)
    ensures
        match r {
            Some(v) => index_of(s@) == Some(v as nat),
            None => index_of(s@) is None,
        },
{
    s.parse::<usize>().ok()
}

/// Whether `arg` is exactly the text `word`.
fn is_word(arg: &String, word: &str) -> (r: bool)
    ensures
        r == (arg@ == word@),
{
    *arg == word.to_owned()
}

/// Reads the command that the arguments ask for; `args[0]` is the program's name.
pub fn parse_command(args: &Vec<String>) -> (r: Command)
    ensures
        r@ == command_of(args_view(args@)),
{
    let ghost a = args_view(args@);
    let n = args.len();
    if n < 2 {
        return Command::Usage;
    }
    if is_word(&args[1], "--list") || is_word(&args[1], "-l") {
        let filter = if n > 2 {
            Some(args[2].clone())
        } else {
            None
        };
        return Command::List { filter };
    }
    if is_word(&args[1], "--edit") {
        if n < 6 || !is_word(&args[4], ":") {
            return Command::EditUsage;
        }
        return match parse_index(args[2].as_str()) {
            None => Command::BadEditIndex,
            Some(position) => Command::Edit {
                position,
                text: trim_quotes(args[3].as_str()),
                category: args[5].clone(),
            },
        };
    }
    if is_word(&args[1], "--remove") || is_word(&args[1], "--r") {
        if n < 3 {
            return Command::RemoveUsage;
        }
        return match parse_index(args[2].as_str()) {
            None => Command::BadRemoveIndex,
            Some(position) => Command::Remove { position },
        };
    }
    if n < 4 || !is_word(&args[2], ":") {
        return Command::AddUsage;
    }
    Command::Add { text: trim_quotes(args[1].as_str()), category: args[3].clone() }
}

} // verus!

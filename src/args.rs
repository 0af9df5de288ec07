//! Turning the command-line arguments into a model name and a question.
use vstd::prelude::*;
use vstd::string::{StrSliceExecFns, StringExecFns};

verus! {

/// The model asked when the arguments name none.
pub open spec fn default_model() -> Seq<char> {
    "mistral"@
}

/// The question asked when the arguments hold none.
pub open spec fn default_question() -> Seq<char> {
    "Tell me that I forgot to ask you a question. Ask me to ask you a question."@
}

/// The prefix of a leading argument that names the model.
pub open spec fn model_flag() -> Seq<char> {
    "--model="@
}

pub open spec fn is_model_flag(t: Seq<char>) -> bool {
    model_flag().len() <= t.len() && t.subrange(0, model_flag().len() as int) == model_flag()
}

/// The model named by a leading `--model=<name>` argument, if the first argument is one.
pub open spec fn flagged_model(args: Seq<Seq<char>>) -> Option<Seq<char>> {
    if args.len() > 0 && is_model_flag(args[0]) {
        Some(args[0].subrange(model_flag().len() as int, args[0].len() as int))
    } else {
        None
    }
}

/// Where the words of the question start: after the model flag, if there is one.
pub open spec fn question_start(args: Seq<Seq<char>>) -> int {
    if flagged_model(args) is Some {
        1
    } else {
        0
    }
}

/// Whether a word stays in the question: all do, except those equal to a flagged model.
pub open spec fn keeps_word(model: Option<Seq<char>>, t: Seq<char>) -> bool {
    match model {
        Some(m) => t != m,
        None => true,
    }
}

/// The words that make up the question.
pub open spec fn question_words(args: Seq<Seq<char>>) -> Seq<Seq<char>> {
    let m = flagged_model(args);
    args.subrange(question_start(args), args.len() as int).filter(|t: Seq<char>| keeps_word(m, t))
}

/// Each word followed by one space.
pub open spec fn spaced(words: Seq<Seq<char>>) -> Seq<char>
    decreases words.len(),
{
    if words.len() == 0 {
        Seq::empty()
    } else {
        spaced(words.drop_last()) + words.last() + seq![' ']
    }
}

pub open spec fn model_of(args: Seq<Seq<char>>) -> Seq<char> {
    match flagged_model(args) {
        Some(m) => m,
        None => default_model(),
    }
}

pub open spec fn question_of(args: Seq<Seq<char>>) -> Seq<char> {
    let words = question_words(args);
    if words.len() == 0 {
        default_question()
    } else {
        trimmed(spaced(words))
    }
}

pub open spec fn arg_views(args: Seq<String>) -> Seq<Seq<char>> {
    args.map_values(|s: String| s@)
}

pub(crate) fn default_model_text() -> (r: String)
    ensures
        r@ == default_model(),
{
    "mistral".to_owned()
}

pub(crate) fn default_question_text() -> (r: String)
    ensures
        r@ == default_question(),
{
    "Tell me that I forgot to ask you a question. Ask me to ask you a question.".to_owned()
}

/// The text with leading and trailing whitespace removed.
pub uninterp spec fn trimmed(s: Seq<char>) -> Seq<char>;

/// Relies on `str::trim`: the text without leading and trailing whitespace,
/// which depends on the characters alone.
#[verifier::external_body]
fn trim_text(s: &String) -> (r: String)
    ensures
        r@ == trimmed(s@),
{
    s.trim().to_string()
}

/// The model named by `arg` if it has the form `--model=<name>`.
pub fn model_in_flag(arg: &String) -> (r: Option<String>)
    ensures
        r is Some <==> is_model_flag(arg@),
        r matches Some(m) ==> m@ == arg@.subrange(model_flag().len() as int, arg@.len() as int),
{
    proof {
        reveal_strlit("--model=");
    }
    let n = arg.as_str().unicode_len();
    if n < 8 {
        return None;
    }
    let head = arg.as_str().substring_char(0, 8).to_owned();
    let flag = "--model=".to_owned();
    if head == flag {
        Some(arg.as_str().substring_char(8, n).to_owned())
    } else {
        None
    }
}

/// What the arguments ask: which model, and which question.
#[derive(Debug)]
pub struct Request {
    pub model: String,
    pub question: String,
}

/// The words of the question, each followed by one space, or `None` if
/// no word is left once the model flag is taken out.
pub fn spaced_question(args: &Vec<String>) -> (r: Option<String>)
    ensures
        r is None <==> question_words(arg_views(args@)).len() == 0,
        r matches Some(q) ==> q@ == spaced(question_words(arg_views(args@))),
{
    let ghost a = arg_views(args@);
    let ghost m = flagged_model(a);
    let ghost keep = |t: Seq<char>| keeps_word(m, t);
    let mut model: Option<String> = None;
    let mut start: usize = 0;
    if args.len() > 0 {
        model = model_in_flag(&args[0]);
        if model.is_some() {
            start = 1;
        }
    }
    assert(model matches Some(x) ==> m == Some(x@));
    assert(model is None ==> m is None);
    assert(start == question_start(a));
    proof {
        reveal_strlit(" ");
        reveal(Seq::filter);
    }
    let mut out = String::new();
    let mut any = false;
    let mut i: usize = start;
    assert(a.subrange(start as int, i as int).filter(keep) =~= Seq::<Seq<char>>::empty());
    while i < args.len()
        invariant
            a == arg_views(args@),
            a.len() == args.len(),
            start <= i <= args.len(),
            start == question_start(a),
            model matches Some(x) ==> m == Some(x@),
            model is None ==> m is None,
            keep == (|t: Seq<char>| keeps_word(m, t)),
            out@ == spaced(a.subrange(start as int, i as int).filter(keep)),
            any <==> a.subrange(start as int, i as int).filter(keep).len() > 0,
        decreases args.len() - i,
    {
        let ghost before = a.subrange(start as int, i as int);
        let ghost after = a.subrange(start as int, i + 1);
        assert(after.drop_last() =~= before);
        assert(after.last() == args@[i as int]@);
        let kept = match &model {
            Some(name) => !(args[i] == *name),
            None => true,
        };
        assert(kept == keep(after.last()));
        if kept {
            out.append(args[i].as_str());
            out.append(" ");
            any = true;
            assert(after.filter(keep) == before.filter(keep).push(after.last())) by {
                reveal(Seq::filter);
            }
            assert(after.filter(keep).drop_last() =~= before.filter(keep));
            assert(" "@ =~= seq![' ']) by {
                reveal_strlit(" ");
            }
            assert(spaced(after.filter(keep)) == spaced(before.filter(keep)) + after.last() + seq![' ']);
            assert(out@ =~= spaced(after.filter(keep)));
        } else {
            assert(after.filter(keep) == before.filter(keep)) by {
                reveal(Seq::filter);
            }
        }
        i = i + 1;
    }
    assert(a.subrange(start as int, a.len() as int) == a.subrange(start as int, i as int));
    if any {
        Some(out)
    } else {
        None
    }
}

/// The model and the question that the arguments (the program name left out) ask for.
pub fn parse_request(args: &Vec<String>) -> (r: Request)
    ensures
        r.model@ == model_of(arg_views(args@)),
        r.question@ == question_of(arg_views(args@)),
{
    let ghost a = arg_views(args@);
    let mut model = default_model_text();
    if args.len() > 0 {
        assert(a[0] == args@[0]@);
        match model_in_flag(&args[0]) {
            Some(m) => {
                model = m;
            },
            None => {},
        }
    }
    let question = match spaced_question(args) {
        Some(q) => trim_text(&q),
        None => default_question_text(),
    };
    Request { model, question }
}

/// What one run of the front-end does.
#[derive(Debug)]
pub enum Command {
    /// Print the usage text.
    Help,
    /// Print the version.
    Version,
    /// Ask the runner.
    Ask(Request),
}

pub open spec fn is_help(args: Seq<Seq<char>>) -> bool {
    args.len() > 0 && args[0] == "--help"@
}

pub open spec fn is_version(args: Seq<Seq<char>>) -> bool {
    args.len() > 0 && args[0] == "--version"@
}

/// Reads the arguments (the program name left out): a leading `--help` or
/// `--version` wins over everything after it.
pub fn parse_command(args: &Vec<String>) -> (r: Command)
    ensures
        is_help(arg_views(args@)) ==> r is Help,
        !is_help(arg_views(args@)) && is_version(arg_views(args@)) ==> r is Version,
        !is_help(arg_views(args@)) && !is_version(arg_views(args@)) ==> (r matches Command::Ask(q)
            && q.model@ == model_of(arg_views(args@)) && q.question@ == question_of(arg_views(args@))),
{
    let ghost a = arg_views(args@);
    if args.len() > 0 {
        assert(a[0] == args@[0]@);
        if args[0] == "--help".to_owned() {
            return Command::Help;
        }
        if args[0] == "--version".to_owned() {
            return Command::Version;
        }
    }
    Command::Ask(parse_request(args))
}

/// A leading `--model=<name>` with a non-empty name selects that model, and
/// no word of the question is that name.
pub proof fn flagged_model_is_used(args: Seq<Seq<char>>, name: Seq<char>)
    requires
        args.len() > 0,
        args[0] == model_flag() + name,
        name.len() > 0,
    ensures
        model_of(args) == name,
        !question_words(args).contains(name),
{
    broadcast use vstd::seq_lib::group_filter_ensures;
    let m = flagged_model(args);
    assert(args[0].subrange(0, model_flag().len() as int) =~= model_flag());
    assert(args[0].subrange(model_flag().len() as int, args[0].len() as int) =~= name);
    let words = question_words(args);
    if words.contains(name) {
        let k = choose|k: int| 0 <= k < words.len() && words[k] == name;
        assert(keeps_word(m, words[k]));
    }
}

/// Without a leading `--model=` argument the model is the default one.
pub proof fn unflagged_model_is_default(args: Seq<Seq<char>>)
    requires
        !(args.len() > 0 && is_model_flag(args[0])),
    ensures
        model_of(args) == default_model(),
{
}

/// When nothing is left of the arguments once the model flag and the words
/// equal to the flagged model are taken out, the question is the default one.
pub proof fn empty_remainder_asks_default(args: Seq<Seq<char>>)
    requires
        forall|k: int|
            question_start(args) <= k < args.len() ==> !keeps_word(flagged_model(args), #[trigger] args[k]),
    ensures
        question_of(args) == default_question(),
{
    broadcast use vstd::seq_lib::group_filter_ensures;
    let m = flagged_model(args);
    let words = question_words(args);
    if words.len() > 0 {
        let rest = args.subrange(question_start(args), args.len() as int);
        assert(keeps_word(m, words[0]));
        rest.lemma_filter_contains_rev(|t: Seq<char>| keeps_word(m, t), words[0]);
        assert(rest.contains(words[0]));
    }
}

} // verus!

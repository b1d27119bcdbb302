use vstd::prelude::*;
use crate::argument::texts;
use crate::resolve::{text_of, Flags, FlagsView};
use vstd::string::is_ascii;

verus! {

#[verifier::external_type_specification]
#[verifier::external_body]
pub struct ExOptions(getopts::Options);

#[verifier::external_type_specification]
#[verifier::external_body]
pub struct ExMatches(getopts::Matches);

/// The options that an `Options` holds, in the order they were added: short
/// name, long name, and whether the option takes a value.
pub uninterp spec fn option_table(o: getopts::Options) -> Seq<(Seq<char>, Seq<char>, bool)>;

/// What a parse result holds for each option name it knows: the option's
/// occurrences in order, each with its value (`None` for a bare switch).
pub uninterp spec fn occurrences(m: getopts::Matches) -> Map<Seq<char>, Seq<Option<Seq<char>>>>;

/// The arguments of a parse result that are no option nor an option's value.
pub uninterp spec fn free_args(m: getopts::Matches) -> Seq<Seq<char>>;

/// What getopts makes of `args` against the option table `table` (every
/// option optional, the default parsing style): `None` when it fails, else
/// the occurrences by name and the free arguments.
pub uninterp spec fn parsed(table: Seq<(Seq<char>, Seq<char>, bool)>, args: Seq<Seq<char>>) -> Option<
    (Map<Seq<char>, Seq<Option<Seq<char>>>>, Seq<Seq<char>>),
>;

/// The names under which a table's options can be looked up: each non-empty
/// short or long name.
pub open spec fn table_names(t: Seq<(Seq<char>, Seq<char>, bool)>) -> Set<Seq<char>> {
    Set::new(
        |n: Seq<char>|
            n.len() > 0 && exists|i: int| 0 <= i < t.len() && ((#[trigger] t[i]).0 == n || t[i].1 == n),
    )
}

pub assume_specification[ getopts::Options::new ]() -> (r: getopts::Options)
    ensures
        option_table(r) == Seq::<(Seq<char>, Seq<char>, bool)>::empty(),
;

/// Relies on `getopts::Options::optopt`: appends an optional option that
/// takes a value. It panics unless the short name is at most one byte and
/// the long name is empty or longer than one byte (for ASCII names, bytes
/// are characters); parsing panics on an option with neither name.
#[verifier::external_body]
fn add_valued(opts: &mut getopts::Options, short: &str, long: &str, desc: &str, hint: &str)
    requires
        is_ascii(short),
        is_ascii(long),
        short@.len() <= 1,
        long@.len() != 1,
        short@.len() > 0 || long@.len() > 0,
    ensures
        option_table(*final(opts)) == option_table(*old(opts)).push((short@, long@, true)),
{
    opts.optopt(short, long, desc, hint);
}

/// Relies on `getopts::Options::optflag`: appends an optional option that
/// takes no value, under the same conditions on its names.
#[verifier::external_body]
fn add_switch(opts: &mut getopts::Options, short: &str, long: &str, desc: &str)
    requires
        is_ascii(short),
        is_ascii(long),
        short@.len() <= 1,
        long@.len() != 1,
        short@.len() > 0 || long@.len() > 0,
    ensures
        option_table(*final(opts)) == option_table(*old(opts)).push((short@, long@, false)),
{
    opts.optflag(short, long, desc);
}

/// Relies on `getopts::Options::parse`: tokenizes the arguments against the
/// options, or fails with a message (its `Fail`, as text). Every option can
/// be looked up under each of its names.
#[verifier::external_body]
fn tokenize(opts: &getopts::Options, args: &Vec<String>) -> (r: Result<getopts::Matches, String>)
    ensures
        r is Err <==> parsed(option_table(*opts), texts(args@)) is None,
        r matches Ok(m) ==> parsed(option_table(*opts), texts(args@)) == Some(
            (occurrences(m), free_args(m)),
        ),
        r matches Ok(m) ==> occurrences(m).dom() == table_names(option_table(*opts)),
{
    match opts.parse(args) {
        Ok(m) => Ok(m),
        Err(f) => Err(f.to_string()),
    }
}

/// Whether an option occurs at all.
pub open spec fn given(occ: Map<Seq<char>, Seq<Option<Seq<char>>>>, name: Seq<char>) -> bool {
    occ.contains_key(name) && occ[name].len() > 0
}

/// The value of an option's first occurrence, if it has one.
pub open spec fn first_value(occ: Map<Seq<char>, Seq<Option<Seq<char>>>>, name: Seq<char>) -> Option<
    Seq<char>,
> {
    if given(occ, name) {
        occ[name][0]
    } else {
        None
    }
}

/// Relies on `getopts::Matches::opt_present`, which panics on a name that is
/// not defined.
#[verifier::external_body]
fn is_present(m: &getopts::Matches, name: &str) -> (r: bool)
    requires
        occurrences(*m).contains_key(name@),
    ensures
        r == given(occurrences(*m), name@),
{
    m.opt_present(name)
}

/// Relies on `getopts::Matches::opt_str`: the value of the first occurrence;
/// it panics on a name that is not defined.
#[verifier::external_body]
fn value_of(m: &getopts::Matches, name: &str) -> (r: Option<String>)
    requires
        occurrences(*m).contains_key(name@),
    ensures
        text_of(r) == first_value(occurrences(*m), name@),
{
    m.opt_str(name)
}

/// Relies on the public field `getopts::Matches::free`: the arguments that
/// are no option, in order.
#[verifier::external_body]
fn free_of(m: &getopts::Matches) -> (r: Vec<String>)
    ensures
        texts(r@) == free_args(*m),
{
    m.free.clone()
}

/// The options that the command line understands: short name, long name,
/// and whether a value follows.
pub open spec fn menu_table() -> Seq<(Seq<char>, Seq<char>, bool)> {
    seq![
        ("e"@, "env"@, true),
        ("p"@, "port"@, true),
        ("f"@, "flag"@, true),
        ("s"@, "sync"@, false),
        ("S"@, "sync_host"@, true),
        ("T"@, "sync_thread_num"@, true),
        (""@, "file_path"@, true),
        ("h"@, "help"@, false),
        ("v"@, "version"@, false),
    ]
}

/// The options that the command line understands.
pub fn menu() -> (r: getopts::Options)
    ensures
        option_table(r) == menu_table(),
{
    let mut opts = getopts::Options::new();
    proof {
        reveal_strlit("e");
        reveal_strlit("env");
        reveal_strlit("p");
        reveal_strlit("port");
        reveal_strlit("f");
        reveal_strlit("flag");
        reveal_strlit("s");
        reveal_strlit("sync");
        reveal_strlit("S");
        reveal_strlit("sync_host");
        reveal_strlit("T");
        reveal_strlit("sync_thread_num");
        reveal_strlit("");
        reveal_strlit("file_path");
        reveal_strlit("h");
        reveal_strlit("help");
        reveal_strlit("v");
        reveal_strlit("version");
    }
    add_valued(&mut opts, "e", "env", "environment the service starts in", "default: dev");
    add_valued(&mut opts, "p", "port", "port of the service, within 3000-9999", "default: 8080");
    add_valued(&mut opts, "f", "flag", "data role: 1 fetch, 2 clean, 3 merge", "default: 1");
    add_switch(&mut opts, "s", "sync", "switch data synchronisation on (off by default)");
    add_valued(
        &mut opts,
        "S",
        "sync_host",
        "hosts to synchronise with, separated by commas",
        "no default; needed with \"-s\"",
    );
    add_valued(
        &mut opts,
        "T",
        "sync_thread_num",
        "number of synchronisation threads, within 1-12",
        "default: 1; used with \"-s\"",
    );
    add_valued(
        &mut opts,
        "",
        "file_path",
        "read all settings from this JSON file\na bare argument is taken as such a file too",
        "settings file path",
    );
    add_switch(&mut opts, "h", "help", "show this help");
    add_switch(&mut opts, "v", "version", "print the program's version");
    opts
}

/// The arguments after the program name.
pub open spec fn after_program(a: Seq<Seq<char>>) -> Seq<Seq<char>> {
    if a.len() > 0 {
        a.drop_first()
    } else {
        a
    }
}

/// The flags record of a parse result, option by option.
pub open spec fn flags_of(occ: Map<Seq<char>, Seq<Option<Seq<char>>>>, free: Seq<Seq<char>>) -> FlagsView {
    FlagsView {
        help: given(occ, "help"@),
        version: given(occ, "version"@),
        env: first_value(occ, "env"@),
        port: first_value(occ, "port"@),
        flag: first_value(occ, "flag"@),
        sync: given(occ, "sync"@),
        sync_host_given: given(occ, "sync_host"@),
        sync_host: first_value(occ, "sync_host"@),
        sync_thread_num: first_value(occ, "sync_thread_num"@),
        file_path: first_value(occ, "file_path"@),
        free,
    }
}

/// Tokenizes a command line, program name first, against [`menu`]; an
/// unknown option or a missing value gives the tokenizer's message.
pub fn read_flags(args: &Vec<String>) -> (r: Result<Flags, String>)
    ensures
        r is Err <==> parsed(menu_table(), after_program(texts(args@))) is None,
        r matches Ok(f) ==> (parsed(menu_table(), after_program(texts(args@))) matches Some(p)
            && f@ == flags_of(p.0, p.1)),
{
    let mut rest: Vec<String> = Vec::new();
    if args.len() > 0 {
        let mut i: usize = 1;
        while i < args.len()
            invariant
                1 <= i <= args.len(),
                texts(rest@) =~= texts(args@).subrange(1, i as int),
            decreases args.len() - i,
        {
            let a = args[i].clone();
            assert(a@ == texts(args@)[i as int]);
            let ghost before = rest@;
            rest.push(a);
            assert(texts(rest@) =~= texts(before).push(a@));
            i = i + 1;
            assert(texts(rest@) =~= texts(args@).subrange(1, i as int));
        }
    }
    assert(texts(rest@) =~= after_program(texts(args@)));
    let opts = menu();
    let m = match tokenize(&opts, &rest) {
        Ok(m) => m,
        Err(e) => {
            return Err(e);
        },
    };
    proof {
        reveal_strlit("help");
        reveal_strlit("version");
        reveal_strlit("env");
        reveal_strlit("port");
        reveal_strlit("flag");
        reveal_strlit("sync");
        reveal_strlit("sync_host");
        reveal_strlit("sync_thread_num");
        reveal_strlit("file_path");
        let t = menu_table();
        assert(t[0].1 == "env"@ && t[1].1 == "port"@ && t[2].1 == "flag"@ && t[3].1 == "sync"@);
        assert(t[4].1 == "sync_host"@ && t[5].1 == "sync_thread_num"@ && t[6].1 == "file_path"@);
        assert(t[7].1 == "help"@ && t[8].1 == "version"@);
        let names = table_names(t);
        assert(names.contains("env"@) && names.contains("port"@) && names.contains("flag"@));
        assert(names.contains("sync"@) && names.contains("sync_host"@));
        assert(names.contains("sync_thread_num"@) && names.contains("file_path"@));
        assert(names.contains("help"@) && names.contains("version"@));
    }
    let f = Flags {
        help: is_present(&m, "help"),
        version: is_present(&m, "version"),
        env: value_of(&m, "env"),
        port: value_of(&m, "port"),
        flag: value_of(&m, "flag"),
        sync: is_present(&m, "sync"),
        sync_host_given: is_present(&m, "sync_host"),
        sync_host: value_of(&m, "sync_host"),
        sync_thread_num: value_of(&m, "sync_thread_num"),
        file_path: value_of(&m, "file_path"),
        free: free_of(&m),
    };
    Ok(f)
}

} // verus!

use vstd::prelude::*;
use crate::argument::{texts, Argument, ArgumentView, DEFAULT_PORT, DEFAULT_FLAG, DEFAULT_THREADS, default_view};
use crate::hosts::{split_hosts, split_on};
use crate::numeric::{read_u32, read_u8, u32_text, u8_text};

verus! {

/// What the command line gave, option by option, once tokenized.
#[derive(Debug)]
pub struct Flags {
    /// `-h` / `--help` was given.
    pub help: bool,
    /// `-v` / `--version` was given.
    pub version: bool,
    /// Value of `-e` / `--env`.
    pub env: Option<String>,
    /// Value of `-p` / `--port`.
    pub port: Option<String>,
    /// Value of `-f` / `--flag`.
    pub flag: Option<String>,
    /// `-s` / `--sync` was given.
    pub sync: bool,
    /// `-S` / `--sync_host` was given.
    pub sync_host_given: bool,
    /// Value of `-S` / `--sync_host`.
    pub sync_host: Option<String>,
    /// Value of `-T` / `--sync_thread_num`.
    pub sync_thread_num: Option<String>,
    /// Value of `--file_path`.
    pub file_path: Option<String>,
    /// Arguments that are no option nor an option's value, in order.
    pub free: Vec<String>,
}

pub struct FlagsView {
    pub help: bool,
    pub version: bool,
    pub env: Option<Seq<char>>,
    pub port: Option<Seq<char>>,
    pub flag: Option<Seq<char>>,
    pub sync: bool,
    pub sync_host_given: bool,
    pub sync_host: Option<Seq<char>>,
    pub sync_thread_num: Option<Seq<char>>,
    pub file_path: Option<Seq<char>>,
    pub free: Seq<Seq<char>>,
}

pub open spec fn text_of(o: Option<String>) -> Option<Seq<char>> {
    match o {
        Some(s) => Some(s@),
        None => None,
    }
}

impl View for Flags {
    type V = FlagsView;

    open spec fn view(&self) -> FlagsView {
        FlagsView {
            help: self.help,
            version: self.version,
            env: text_of(self.env),
            port: text_of(self.port),
            flag: text_of(self.flag),
            sync: self.sync,
            sync_host_given: self.sync_host_given,
            sync_host: text_of(self.sync_host),
            sync_thread_num: text_of(self.sync_thread_num),
            file_path: text_of(self.file_path),
            free: texts(self.free@),
        }
    }
}

/// What to do once the command line is read.
#[derive(Debug)]
pub enum Plan {
    /// Print the usage text; no settings result.
    ShowHelp,
    /// Print the program's version; no settings result.
    ShowVersion,
    /// `--sync_host` came without a value; no settings result.
    BadHosts,
    /// Settings from the flags, to be replaced by each file of `files` in
    /// turn, every one of which must load.
    Load { base: Argument, files: Vec<String> },
}

pub enum PlanView {
    ShowHelp,
    ShowVersion,
    BadHosts,
    Load { base: ArgumentView, files: Seq<Seq<char>> },
}

impl View for Plan {
    type V = PlanView;

    open spec fn view(&self) -> PlanView {
        match self {
            Plan::ShowHelp => PlanView::ShowHelp,
            Plan::ShowVersion => PlanView::ShowVersion,
            Plan::BadHosts => PlanView::BadHosts,
            Plan::Load { base, files } => PlanView::Load { base: base@, files: texts(files@) },
        }
    }
}

/// The port after `-p`: a number in `(3000, 9999]` is taken, any other
/// number gives the default port, and a text that is no number changes nothing.
pub open spec fn port_after(cur: u32, given: Option<Seq<char>>) -> u32 {
    match given {
        Some(t) => match u32_text(t) {
            Some(p) => if 3000 < p && p <= 9999 {
                p
            } else {
                DEFAULT_PORT
            },
            None => cur,
        },
        None => cur,
    }
}

/// The data role after `-f`: a number in `(1, 3]` is taken, any other number
/// gives 1, and a text that is no number changes nothing.
pub open spec fn flag_after(cur: u8, given: Option<Seq<char>>) -> u8 {
    match given {
        Some(t) => match u8_text(t) {
            Some(f) => if 1 < f && f <= 3 {
                f
            } else {
                DEFAULT_FLAG
            },
            None => cur,
        },
        None => cur,
    }
}

/// The thread count after `-T`: a number in `(1, 12]` gives 12, any other
/// number gives 1, and a text that is no number changes nothing.
pub open spec fn threads_after(cur: u8, given: Option<Seq<char>>) -> u8 {
    match given {
        Some(t) => match u8_text(t) {
            Some(n) => if 1 < n && n <= 12 {
                12
            } else {
                DEFAULT_THREADS
            },
            None => cur,
        },
        None => cur,
    }
}

/// The settings that the flags give, laid over the defaults field by field.
pub open spec fn flag_settings(f: FlagsView) -> ArgumentView {
    let d = default_view();
    ArgumentView {
        env: match f.env {
            Some(e) => e,
            None => d.env,
        },
        port: port_after(d.port, f.port),
        flag: flag_after(d.flag, f.flag),
        sync: f.sync,
        sync_host: match f.sync_host {
            Some(h) => split_on(h, ','),
            None => d.sync_host,
        },
        sync_thread_num: threads_after(d.sync_thread_num, f.sync_thread_num),
        file_path: d.file_path,
    }
}

/// The files to load, in order: the one named by `--file_path`, then the
/// first free argument.
pub open spec fn files_of(f: FlagsView) -> Seq<Seq<char>> {
    let named = match f.file_path {
        Some(p) => seq![p],
        None => Seq::empty(),
    };
    if f.free.len() > 0 {
        named.push(f.free[0])
    } else {
        named
    }
}

/// What the flags call for.
pub open spec fn planned(f: FlagsView) -> PlanView {
    if f.help {
        PlanView::ShowHelp
    } else if f.version {
        PlanView::ShowVersion
    } else if f.sync_host_given && f.sync_host is None {
        PlanView::BadHosts
    } else {
        PlanView::Load { base: flag_settings(f), files: files_of(f) }
    }
}

/// Decides what the tokenized command line calls for.
pub fn plan(f: &Flags) -> (r: Plan)
    ensures
        r@ == planned(f@),
{
    if f.help {
        return Plan::ShowHelp;
    }
    if f.version {
        return Plan::ShowVersion;
    }
    let mut a = Argument::default();
    if let Some(e) = &f.env {
        a.env = e.clone();
    }
    if let Some(t) = &f.port {
        if let Some(p) = read_u32(t.as_str()) {
            a.port = if p <= 9999 && p > 3000 {
                p
            } else {
                DEFAULT_PORT
            };
        }
    }
    if let Some(t) = &f.flag {
        if let Some(v) = read_u8(t.as_str()) {
            a.flag = if v <= 3 && v > 1 {
                v
            } else {
                DEFAULT_FLAG
            };
        }
    }
    if f.sync {
        a.sync = true;
    }
    if f.sync_host_given {
        match &f.sync_host {
            Some(h) => {
                a.sync_host = split_hosts(h.as_str());
            },
            None => {
                return Plan::BadHosts;
            },
        }
    } else if let Some(h) = &f.sync_host {
        a.sync_host = split_hosts(h.as_str());
    }
    if let Some(t) = &f.sync_thread_num {
        if let Some(n) = read_u8(t.as_str()) {
            a.sync_thread_num = if n <= 12 && n > 1 {
                12
            } else {
                DEFAULT_THREADS
            };
        }
    }
    let mut files: Vec<String> = Vec::new();
    if let Some(p) = &f.file_path {
        files.push(p.clone());
    }
    if f.free.len() > 0 {
        files.push(f.free[0].clone());
    }
    proof {
        assert(texts(files@) =~= files_of(f@));
    }
    Plan::Load { base: a, files }
}

/// The settings loaded from a file, recording the file's path.
pub open spec fn from_file(a: ArgumentView, path: Seq<char>) -> ArgumentView {
    ArgumentView { file_path: path, ..a }
}

/// The result once the files of a plan were read in turn: no result when
/// one of them was not read or did not load, the base settings when there
/// are no files, and otherwise the last file's settings, as they were
/// loaded, with its path.
pub open spec fn finished(
    base: ArgumentView,
    files: Seq<Seq<char>>,
    loaded: Seq<Option<ArgumentView>>,
) -> Option<ArgumentView> {
    if loaded.len() < files.len() || exists|i: int| 0 <= i < loaded.len() && (#[trigger] loaded[i]) is None {
        None
    } else if files.len() == 0 {
        Some(base)
    } else {
        Some(from_file(loaded[files.len() - 1]->0, files.last()))
    }
}

pub open spec fn loaded_view(o: Option<Argument>) -> Option<ArgumentView> {
    match o {
        Some(a) => Some(a@),
        None => None,
    }
}

pub open spec fn loaded_views(v: Seq<Option<Argument>>) -> Seq<Option<ArgumentView>> {
    v.map_values(|o: Option<Argument>| loaded_view(o))
}

/// Completes a plan's settings from what its files gave: `loaded[i]` is
/// what the file `files[i]` deserialized to, `None` where it could not be
/// read or parsed; files after a failed one need not be read.
pub fn finish(base: Argument, files: &Vec<String>, loaded: Vec<Option<Argument>>) -> (r: Option<
    Argument,
>)
    requires
        loaded.len() <= files.len(),
    ensures
        loaded_view(r) == finished(base@, texts(files@), loaded_views(loaded@)),
{
    let ghost lv = loaded_views(loaded@);
    if loaded.len() < files.len() {
        return None;
    }
    let mut i: usize = 0;
    while i < loaded.len()
        invariant
            i <= loaded.len(),
            lv == loaded_views(loaded@),
            forall|j: int| 0 <= j < i ==> (#[trigger] lv[j]) is Some,
        decreases loaded.len() - i,
    {
        if loaded[i].is_none() {
            assert(lv[i as int] is None);
            return None;
        }
        i = i + 1;
    }
    if files.len() == 0 {
        return Some(base);
    }
    let mut loaded = loaded;
    let n = files.len();
    match loaded.pop() {
        Some(Some(mut a)) => {
            assert(lv[n - 1] == loaded_view(Some(a)));
            a.file_path = files[n - 1].clone();
            Some(a)
        },
        _ => {
            assert(lv[n - 1] is Some);
            None
        },
    }
}

} // verus!

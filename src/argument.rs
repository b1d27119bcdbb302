use vstd::prelude::*;

verus! {

/// The resolved settings of one run of the service.
#[derive(Debug, Clone, PartialEq, Eq)]
pub struct Argument {
    /// Environment name, free-form.
    pub env: String,
    /// Listening port.
    pub port: u32,
    /// Data role of the service: 1 fetch, 2 clean, 3 merge.
    pub flag: u8,
    /// Whether data synchronisation is switched on.
    pub sync: bool,
    /// Hosts to synchronise with, each `host:port`, in the order given.
    pub sync_host: Vec<String>,
    /// Number of synchronisation threads.
    pub sync_thread_num: u8,
    /// Path of the file the settings were loaded from; empty when none.
    pub file_path: String,
}

/// Mathematical model of [`Argument`].
pub struct ArgumentView {
    pub env: Seq<char>,
    pub port: u32,
    pub flag: u8,
    pub sync: bool,
    pub sync_host: Seq<Seq<char>>,
    pub sync_thread_num: u8,
    pub file_path: Seq<char>,
}

/// The text of each string of a sequence.
pub open spec fn texts(v: Seq<String>) -> Seq<Seq<char>> {
    v.map_values(|s: String| s@)
}

impl View for Argument {
    type V = ArgumentView;

    open spec fn view(&self) -> ArgumentView {
        ArgumentView {
            env: self.env@,
            port: self.port,
            flag: self.flag,
            sync: self.sync,
            sync_host: texts(self.sync_host@),
            sync_thread_num: self.sync_thread_num,
            file_path: self.file_path@,
        }
    }
}

pub const DEFAULT_PORT: u32 = 8080;

pub const DEFAULT_FLAG: u8 = 1;

pub const DEFAULT_THREADS: u8 = 1;

/// The settings used when nothing else is given.
pub open spec fn default_view() -> ArgumentView {
    ArgumentView {
        env: seq!['d', 'e', 'v'],
        port: DEFAULT_PORT,
        flag: DEFAULT_FLAG,
        sync: false,
        sync_host: Seq::empty(),
        sync_thread_num: DEFAULT_THREADS,
        file_path: Seq::empty(),
    }
}

impl Default for Argument {
    fn default() -> (r: Self)
        ensures
            r@ == default_view(),
    {
        proof {
            reveal_strlit("dev");
        }
        let r = Argument {
            env: "dev".to_owned(),
            port: DEFAULT_PORT,
            flag: DEFAULT_FLAG,
            sync: false,
            sync_host: Vec::new(),
            sync_thread_num: DEFAULT_THREADS,
            file_path: String::new(),
        };
        assert(r@.sync_host =~= Seq::<Seq<char>>::empty());
        assert(r@.env =~= seq!['d', 'e', 'v']);
        r
    }
}

} // verus!

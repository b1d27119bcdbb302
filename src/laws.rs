use vstd::prelude::*;
use crate::argument::ArgumentView;
use crate::numeric::{decimal, law_decimal_reads_back};
use crate::resolve::{finished, from_file, planned, FlagsView, PlanView};

verus! {

/// The whole resolution: what the flags call for, completed by what each
/// file to load gave (`loaded[i]` for the `i`-th file; `None` where it
/// could not be read or parsed).
pub open spec fn resolved(f: FlagsView, loaded: Seq<Option<ArgumentView>>) -> Option<
    ArgumentView,
> {
    match planned(f) {
        PlanView::Load { base, files } => finished(base, files, loaded),
        _ => None,
    }
}

/// Neither help nor version is asked for, and `--sync_host` has its value.
pub open spec fn proceeds(f: FlagsView) -> bool {
    !f.help && !f.version && !(f.sync_host_given && f.sync_host is None)
}

/// No file is named, neither by `--file_path` nor by a free argument.
pub open spec fn no_file(f: FlagsView) -> bool {
    f.file_path is None && f.free.len() == 0
}

/// Flags that name no file always give a result, unless help or version is
/// asked for or `--sync_host` lacks its value.
pub proof fn law_flags_alone_resolve(f: FlagsView)
    requires
        no_file(f),
    ensures
        resolved(f, Seq::empty()) is Some <==> proceeds(f),
{
}

/// A port `p` in `(3000, 9999]` given as `-p p` is the resolved port.
pub proof fn law_port_in_range_kept(f: FlagsView, p: u32, loaded: Seq<Option<ArgumentView>>)
    requires
        f.port == Some(decimal(p as nat)),
        3000 < p <= 9999,
        no_file(f),
    ensures
        resolved(f, loaded) matches Some(a) ==> a.port == p,
{
    law_decimal_reads_back(p as nat);
}

/// A port `p` outside `(3000, 9999]` given as `-p p` gives the default
/// port 8080.
pub proof fn law_port_out_of_range_default(f: FlagsView, p: u32, loaded: Seq<Option<ArgumentView>>)
    requires
        f.port == Some(decimal(p as nat)),
        !(3000 < p <= 9999),
        no_file(f),
    ensures
        resolved(f, loaded) matches Some(a) ==> a.port == 8080,
{
    law_decimal_reads_back(p as nat);
}

/// A data role `v` in `(1, 3]` given as `-f v` is kept; any other number
/// gives 1.
pub proof fn law_flag_range(f: FlagsView, v: u8, loaded: Seq<Option<ArgumentView>>)
    requires
        f.flag == Some(decimal(v as nat)),
        no_file(f),
    ensures
        resolved(f, loaded) matches Some(a) ==> a.flag == (if 1 < v <= 3 {
            v
        } else {
            1u8
        }),
{
    law_decimal_reads_back(v as nat);
}

/// A thread count `v` in `(1, 12]` given as `-T v` gives 12, any other 1;
/// so, but for an input of 1, the result equals the input only when it is 12.
pub proof fn law_threads_asymmetric(f: FlagsView, v: u8, loaded: Seq<Option<ArgumentView>>)
    requires
        f.sync_thread_num == Some(decimal(v as nat)),
        no_file(f),
    ensures
        resolved(f, loaded) matches Some(a) ==> a.sync_thread_num == (if 1 < v <= 12 {
            12u8
        } else {
            1u8
        }),
        resolved(f, loaded) matches Some(a) ==> (a.sync_thread_num == v && v != 1 ==> v == 12),
{
    law_decimal_reads_back(v as nat);
}

/// Help or version yields no result, whatever else is given.
pub proof fn law_help_version_stop(f: FlagsView, loaded: Seq<Option<ArgumentView>>)
    requires
        f.help || f.version,
    ensures
        resolved(f, loaded) is None,
{
}

/// A file named by `--file_path` gives its settings as loaded, with no range
/// checks, and its path.
pub proof fn law_file_verbatim(f: FlagsView, a: ArgumentView)
    requires
        proceeds(f),
        f.file_path is Some,
        f.free.len() == 0,
    ensures
        resolved(f, seq![Some(a)]) == Some(from_file(a, f.file_path->0)),
{
    let files = seq![f.file_path->0];
    let loaded = seq![Some(a)];
    assert(planned(f) == PlanView::Load { base: crate::resolve::flag_settings(f), files });
    assert(!(exists|i: int| 0 <= i < loaded.len() && (#[trigger] loaded[i]) is None));
}

/// With both `--file_path` and a free argument, the free argument's file wins.
pub proof fn law_free_file_wins(f: FlagsView, named: ArgumentView, free: ArgumentView)
    requires
        proceeds(f),
        f.file_path is Some,
        f.free.len() > 0,
    ensures
        resolved(f, seq![Some(named), Some(free)]) == Some(from_file(free, f.free[0])),
{
    let loaded = seq![Some(named), Some(free)];
    assert(!(exists|i: int| 0 <= i < loaded.len() && (#[trigger] loaded[i]) is None));
}

/// A file that could not be read or parsed yields no result.
pub proof fn law_unreadable_file_no_result(f: FlagsView, loaded: Seq<Option<ArgumentView>>, i: int)
    requires
        0 <= i < loaded.len(),
        loaded[i] is None,
    ensures
        resolved(f, loaded) is None,
{
}

} // verus!

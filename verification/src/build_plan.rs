//! The build of the reference implementation, as far as it is decided
//! before any tool runs: what is compiled and how, under which names the
//! reference's symbols are linked, and which profiling runtime goes with it.
//!
//! The reference and the translated implementation define the same symbols.
//! To link both into one program every symbol of the reference is renamed,
//! and no new name may be a name that the translated implementation still
//! carries.

use vstd::prelude::*;
use vstd::string::*;

verus! {

/// One entry of the rename table: a symbol of the reference and the name it
/// is linked under.
#[derive(Clone, Debug, PartialEq, Eq)]
pub struct Rename {
    pub from: String,
    pub to: String,
}

impl View for Rename {
    type V = (Seq<char>, Seq<char>);

    open spec fn view(&self) -> (Seq<char>, Seq<char>) {
        (self.from@, self.to@)
    }
}

/// The rename table as a sequence of pairs of names.
pub open spec fn table(renames: Seq<Rename>) -> Seq<(Seq<char>, Seq<char>)> {
    Seq::new(renames.len(), |i: int| renames[i]@)
}

/// No new name of the table is an old name of it: after renaming, the
/// reference defines no symbol that the translated implementation defines.
pub open spec fn isolated(renames: Seq<(Seq<char>, Seq<char>)>) -> bool {
    forall|i: int, j: int|
        0 <= i < renames.len() && 0 <= j < renames.len() ==> (#[trigger] renames[i]).1 != (
        #[trigger] renames[j]).0
}

/// Tests that no new name of the table is an old name of it.
pub fn is_isolated(renames: &Vec<Rename>) -> (ok: bool)
    ensures
        ok == isolated(table(renames@)),
{
    let mut i: usize = 0;
    while i < renames.len()
        invariant
            i <= renames.len(),
            forall|a: int, b: int|
                0 <= a < i && 0 <= b < renames.len() ==> (#[trigger] table(renames@)[a]).1 != (
                #[trigger] table(renames@)[b]).0,
        decreases renames.len() - i,
    {
        let mut j: usize = 0;
        while j < renames.len()
            invariant
                i < renames.len(),
                j <= renames.len(),
                forall|b: int|
                    0 <= b < j ==> table(renames@)[i as int].1 != (#[trigger] table(renames@)[b]).0,
            decreases renames.len() - j,
        {
            if renames[i].to == renames[j].from {
                assert(table(renames@)[i as int].1 == table(renames@)[j as int].0);
                return false;
            }
            j += 1;
        }
        i += 1;
    }
    true
}

/// A table entry from two names.
pub fn rename(from: &str, to: &str) -> (entry: Rename)
    ensures
        entry@ == (from@, to@),
{
    Rename { from: String::from_str(from), to: String::from_str(to) }
}

/// The rename table of the ordering routine's reference: the routine and its
/// two helpers.
pub open spec fn ordering_renames() -> Seq<(Seq<char>, Seq<char>)> {
    seq![
        ("quickSort"@, "c_quickSort"@),
        ("partition"@, "c_partition"@),
        ("swap"@, "c_swap"@),
    ]
}

/// The rename table of the parse routine's reference: the parse and free
/// routines, every accessor, the scheme table, the string duplication that
/// the reference defines for itself, and its helpers.
pub open spec fn parsing_renames() -> Seq<(Seq<char>, Seq<char>)> {
    seq![
        ("url_parse"@, "c_url_parse"@),
        ("url_free"@, "c_url_free"@),
        ("url_get_protocol"@, "c_url_get_protocol"@),
        ("url_get_host"@, "c_url_get_host"@),
        ("url_get_hostname"@, "c_url_get_hostname"@),
        ("url_get_path"@, "c_url_get_path"@),
        ("url_get_query"@, "c_url_get_query"@),
        ("url_get_hash"@, "c_url_get_hash"@),
        ("url_get_port"@, "c_url_get_port"@),
        ("url_get_auth"@, "c_url_get_auth"@),
        ("url_get_pathname"@, "c_url_get_pathname"@),
        ("url_get_search"@, "c_url_get_search"@),
        ("URL_SCHEMES"@, "C_URL_SCHEMES"@),
        ("strdup"@, "c_strdup"@),
        ("url_is_protocol"@, "c_url_is_protocol"@),
        ("url_is_ssh"@, "c_url_is_ssh"@),
        ("url_inspect"@, "c_url_inspect"@),
        ("url_data_inspect"@, "c_url_data_inspect"@),
    ]
}

/// The ordering routine's table is isolated: every new name has an
/// underscore as its second character and no old name has.
pub proof fn lemma_ordering_renames_isolated()
    ensures
        isolated(ordering_renames()),
{
    reveal_strlit("quickSort");
    reveal_strlit("c_quickSort");
    reveal_strlit("partition");
    reveal_strlit("c_partition");
    reveal_strlit("swap");
    reveal_strlit("c_swap");
    let t = ordering_renames();
    assert(t[0].0[1] != '_' && t[0].1[1] == '_');
    assert(t[1].0[1] != '_' && t[1].1[1] == '_');
    assert(t[2].0[1] != '_' && t[2].1[1] == '_');
    assert forall|i: int, j: int| 0 <= i < t.len() && 0 <= j < t.len() implies (#[trigger] t[i]).1 != (
    #[trigger] t[j]).0 by {
        assert(t[i].1[1] == '_');
        assert(t[j].0[1] != '_');
    }
}

/// The parse routine's table is isolated: every new name has an underscore as
/// its second character and no old name has.
pub proof fn lemma_parsing_renames_isolated()
    ensures
        isolated(parsing_renames()),
{
    reveal_strlit("url_parse");
    reveal_strlit("c_url_parse");
    reveal_strlit("url_free");
    reveal_strlit("c_url_free");
    reveal_strlit("url_get_protocol");
    reveal_strlit("c_url_get_protocol");
    reveal_strlit("url_get_host");
    reveal_strlit("c_url_get_host");
    reveal_strlit("url_get_hostname");
    reveal_strlit("c_url_get_hostname");
    reveal_strlit("url_get_path");
    reveal_strlit("c_url_get_path");
    reveal_strlit("url_get_query");
    reveal_strlit("c_url_get_query");
    reveal_strlit("url_get_hash");
    reveal_strlit("c_url_get_hash");
    reveal_strlit("url_get_port");
    reveal_strlit("c_url_get_port");
    reveal_strlit("url_get_auth");
    reveal_strlit("c_url_get_auth");
    reveal_strlit("url_get_pathname");
    reveal_strlit("c_url_get_pathname");
    reveal_strlit("url_get_search");
    reveal_strlit("c_url_get_search");
    reveal_strlit("URL_SCHEMES");
    reveal_strlit("C_URL_SCHEMES");
    reveal_strlit("strdup");
    reveal_strlit("c_strdup");
    reveal_strlit("url_is_protocol");
    reveal_strlit("c_url_is_protocol");
    reveal_strlit("url_is_ssh");
    reveal_strlit("c_url_is_ssh");
    reveal_strlit("url_inspect");
    reveal_strlit("c_url_inspect");
    reveal_strlit("url_data_inspect");
    reveal_strlit("c_url_data_inspect");
    let t = parsing_renames();
    assert(t[0].0[1] != '_' && t[0].1[1] == '_');
    assert(t[1].0[1] != '_' && t[1].1[1] == '_');
    assert(t[2].0[1] != '_' && t[2].1[1] == '_');
    assert(t[3].0[1] != '_' && t[3].1[1] == '_');
    assert(t[4].0[1] != '_' && t[4].1[1] == '_');
    assert(t[5].0[1] != '_' && t[5].1[1] == '_');
    assert(t[6].0[1] != '_' && t[6].1[1] == '_');
    assert(t[7].0[1] != '_' && t[7].1[1] == '_');
    assert(t[8].0[1] != '_' && t[8].1[1] == '_');
    assert(t[9].0[1] != '_' && t[9].1[1] == '_');
    assert(t[10].0[1] != '_' && t[10].1[1] == '_');
    assert(t[11].0[1] != '_' && t[11].1[1] == '_');
    assert(t[12].0[1] != '_' && t[12].1[1] == '_');
    assert(t[13].0[1] != '_' && t[13].1[1] == '_');
    assert(t[14].0[1] != '_' && t[14].1[1] == '_');
    assert(t[15].0[1] != '_' && t[15].1[1] == '_');
    assert(t[16].0[1] != '_' && t[16].1[1] == '_');
    assert(t[17].0[1] != '_' && t[17].1[1] == '_');
    assert forall|i: int, j: int| 0 <= i < t.len() && 0 <= j < t.len() implies (#[trigger] t[i]).1 != (
    #[trigger] t[j]).0 by {
        assert(t[i].1[1] == '_');
        assert(t[j].0[1] != '_');
    }
}

/// Builds the rename table of the ordering routine's reference.
pub fn ordering_table() -> (renames: Vec<Rename>)
    ensures
        table(renames@) == ordering_renames(),
        isolated(table(renames@)),
{
    let mut renames: Vec<Rename> = Vec::new();
    renames.push(rename("quickSort", "c_quickSort"));
    renames.push(rename("partition", "c_partition"));
    renames.push(rename("swap", "c_swap"));
    proof {
        assert(table(renames@) =~= ordering_renames());
        lemma_ordering_renames_isolated();
    }
    renames
}

/// Builds the rename table of the parse routine's reference.
pub fn parsing_table() -> (renames: Vec<Rename>)
    ensures
        table(renames@) == parsing_renames(),
        isolated(table(renames@)),
{
    let mut renames: Vec<Rename> = Vec::new();
    renames.push(rename("url_parse", "c_url_parse"));
    renames.push(rename("url_free", "c_url_free"));
    renames.push(rename("url_get_protocol", "c_url_get_protocol"));
    renames.push(rename("url_get_host", "c_url_get_host"));
    renames.push(rename("url_get_hostname", "c_url_get_hostname"));
    renames.push(rename("url_get_path", "c_url_get_path"));
    renames.push(rename("url_get_query", "c_url_get_query"));
    renames.push(rename("url_get_hash", "c_url_get_hash"));
    renames.push(rename("url_get_port", "c_url_get_port"));
    renames.push(rename("url_get_auth", "c_url_get_auth"));
    renames.push(rename("url_get_pathname", "c_url_get_pathname"));
    renames.push(rename("url_get_search", "c_url_get_search"));
    renames.push(rename("URL_SCHEMES", "C_URL_SCHEMES"));
    renames.push(rename("strdup", "c_strdup"));
    renames.push(rename("url_is_protocol", "c_url_is_protocol"));
    renames.push(rename("url_is_ssh", "c_url_is_ssh"));
    renames.push(rename("url_inspect", "c_url_inspect"));
    renames.push(rename("url_data_inspect", "c_url_data_inspect"));
    proof {
        assert(table(renames@) =~= parsing_renames());
        lemma_parsing_renames_isolated();
    }
    renames
}

/// The names that a list of strings holds.
pub open spec fn names(items: Seq<String>) -> Seq<Seq<char>> {
    Seq::new(items.len(), |i: int| items[i]@)
}

/// The compiler's flags: light optimisation, debug information, and the
/// coverage instrumentation that the fuzzing engine takes its feedback from.
pub open spec fn instrumentation_flags() -> Seq<Seq<char>> {
    seq!["-O1"@, "-g"@, "-fsanitize-coverage=trace-pc-guard,trace-cmp"@]
}

/// How one reference implementation is compiled into a library.
#[derive(Clone, Debug, PartialEq, Eq)]
pub struct BuildPlan {
    /// The compiler to run.
    pub compiler: String,
    /// The flags to pass to it.
    pub flags: Vec<String>,
    /// Whether the compiler's warnings are shown.
    pub warnings: bool,
    /// The rename table, applied to every source.
    pub renames: Vec<Rename>,
    /// The source files.
    pub sources: Vec<String>,
    /// The name of the library that is produced.
    pub library: String,
}

impl BuildPlan {
    /// What every plan shares: the instrumenting compiler, its flags, silence
    /// on warnings, and the library's name.
    pub open spec fn instrumented(self) -> bool {
        &&& self.compiler@ == "clang"@
        &&& names(self.flags@) == instrumentation_flags()
        &&& !self.warnings
        &&& self.library@ == "c_oracle"@
    }
}

/// A plan for the given rename table and the single source file.
fn plan_for(renames: Vec<Rename>, source: &str) -> (plan: BuildPlan)
    ensures
        plan.instrumented(),
        plan.renames == renames,
        names(plan.sources@) == seq![source@],
{
    let mut flags: Vec<String> = Vec::new();
    flags.push(String::from_str("-O1"));
    flags.push(String::from_str("-g"));
    flags.push(String::from_str("-fsanitize-coverage=trace-pc-guard,trace-cmp"));
    let mut sources: Vec<String> = Vec::new();
    sources.push(String::from_str(source));
    proof {
        assert(names(flags@) =~= instrumentation_flags());
        assert(names(sources@) =~= seq![source@]);
    }
    BuildPlan {
        compiler: String::from_str("clang"),
        flags,
        warnings: false,
        renames,
        sources,
        library: String::from_str("c_oracle"),
    }
}

/// The build of the ordering routine's reference.
pub fn ordering_plan() -> (plan: BuildPlan)
    ensures
        plan.instrumented(),
        table(plan.renames@) == ordering_renames(),
        isolated(table(plan.renames@)),
        names(plan.sources@) == seq!["c/qsort.c"@],
{
    plan_for(ordering_table(), "c/qsort.c")
}

/// The build of the parse routine's reference.
pub fn parsing_plan() -> (plan: BuildPlan)
    ensures
        plan.instrumented(),
        table(plan.renames@) == parsing_renames(),
        isolated(table(plan.renames@)),
        names(plan.sources@) == seq!["c/url.c"@],
{
    plan_for(parsing_table(), "c/url.c")
}

/// The architecture that the runtime is chosen for: the configured one, or
/// `x86_64` where none is configured.
pub fn target_arch(configured: Option<String>) -> (arch: String)
    ensures
        arch@ == match configured {
            Some(name) => name@,
            None => "x86_64"@,
        },
{
    match configured {
        Some(name) => name,
        None => String::from_str("x86_64"),
    }
}

/// The name of the profiling runtime for an architecture: the runtime's
/// prefix, a hyphen, and the architecture.
pub fn runtime_library(arch: &str) -> (name: String)
    ensures
        name@ == "clang_rt.profile-"@ + arch@,
{
    String::from_str("clang_rt.profile-").concat(arch)
}

/// The directive that adds a directory to the linker's native search path.
pub fn link_search_directive(directory: &str) -> (line: String)
    ensures
        line@ == "cargo:rustc-link-search=native="@ + directory@,
{
    String::from_str("cargo:rustc-link-search=native=").concat(directory)
}

/// The directive that links a static library.
pub fn link_library_directive(library: &str) -> (line: String)
    ensures
        line@ == "cargo:rustc-link-lib=static="@ + library@,
{
    String::from_str("cargo:rustc-link-lib=static=").concat(library)
}

} // verus!

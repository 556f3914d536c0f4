//! Decisions of the launcher around the redirect: which embedded binary runs
//! on a host, the list of strategies offered, and which one a menu answer
//! selects.
use vstd::prelude::*;

verus! {

/// The embedded binaries, one per target.
#[derive(Clone, Copy, Debug, PartialEq, Eq, Structural)]
pub enum Binary {
    WindowsExe,
    X86_64,
    Aarch64,
    I686,
}

/// The binary for an OS and an architecture name; none for an unknown
/// architecture off Windows.
pub open spec fn binary_for(os: Seq<char>, arch: Seq<char>) -> Option<Binary> {
    if os == "windows"@ {
        Some(Binary::WindowsExe)
    } else if arch == "x86_64"@ {
        Some(Binary::X86_64)
    } else if arch == "aarch64"@ {
        Some(Binary::Aarch64)
    } else if arch == "i686"@ {
        Some(Binary::I686)
    } else {
        None
    }
}

/// Whether two texts are equal.
pub fn same_text(a: &str, b: &str) -> (r: bool)
    ensures
        r == (a@ == b@),
{
    String::from_str(a) == String::from_str(b)
}

/// Picks the embedded binary for the host.
pub fn pick_binary(os: &str, arch: &str) -> (r: Option<Binary>)
    ensures
        r == binary_for(os@, arch@),
{
    if same_text(os, "windows") {
        Some(Binary::WindowsExe)
    } else if same_text(arch, "x86_64") {
        Some(Binary::X86_64)
    } else if same_text(arch, "aarch64") {
        Some(Binary::Aarch64)
    } else if same_text(arch, "i686") {
        Some(Binary::I686)
    } else {
        None
    }
}

/// The file name under which a binary is extracted.
pub fn binary_file_name(b: Binary) -> (r: &'static str)
    ensures
        r@ == match b {
            Binary::WindowsExe => "ciadpi.exe"@,
            Binary::X86_64 => "ciadpi-x86_64"@,
            Binary::Aarch64 => "ciadpi-aarch64"@,
            Binary::I686 => "ciadpi-i686"@,
        },
{
    match b {
        Binary::WindowsExe => "ciadpi.exe",
        Binary::X86_64 => "ciadpi-x86_64",
        Binary::Aarch64 => "ciadpi-aarch64",
        Binary::I686 => "ciadpi-i686",
    }
}

/// All strategies offered: the built-in ones, then the user's, in order.
pub fn get_all_strategies(built_in: &Vec<(String, String)>, user: &Vec<(String, String)>) -> (r: Vec<
    (String, String),
>)
    ensures
        r@ == built_in@ + user@,
{
    let mut r: Vec<(String, String)> = Vec::new();
    let mut i: usize = 0;
    while i < built_in.len()
        invariant
            i <= built_in.len(),
            r@ == built_in@.subrange(0, i as int),
        decreases built_in.len() - i,
    {
        r.push((built_in[i].0.clone(), built_in[i].1.clone()));
        i = i + 1;
    }
    let mut j: usize = 0;
    while j < user.len()
        invariant
            i == built_in.len(),
            j <= user.len(),
            r@ == built_in@ + user@.subrange(0, j as int),
        decreases user.len() - j,
    {
        r.push((user[j].0.clone(), user[j].1.clone()));
        j = j + 1;
    }
    assert(user@.subrange(0, j as int) =~= user@);
    r
}

/// The index that a menu answer selects among `len` entries: the answer
/// counts from 1, defaults to 1 when it is not a number, and is clamped to
/// the list.
pub open spec fn strategy_index(choice: Option<usize>, len: nat) -> int {
    let c: int = match choice {
        Some(c) => c as int,
        None => 1,
    };
    let k: int = if c >= 1 {
        c - 1
    } else {
        0
    };
    if k < len - 1 {
        k
    } else {
        len - 1
    }
}

/// The arguments of the strategy that a menu answer selects; empty when no
/// strategy is offered.
pub fn select_strategy(strategies: &Vec<(String, String)>, choice: Option<usize>) -> (r: String)
    ensures
        strategies@.len() == 0 ==> r@ == Seq::<char>::empty(),
        strategies@.len() > 0 ==> r == strategies@[strategy_index(choice, strategies@.len())].1,
{
    if strategies.len() == 0 {
        return String::new();
    }
    let c: usize = match choice {
        Some(c) => c,
        None => 1,
    };
    let k: usize = if c >= 1 {
        c - 1
    } else {
        0
    };
    let last: usize = strategies.len() - 1;
    let idx: usize = if k < last {
        k
    } else {
        last
    };
    strategies[idx].1.clone()
}

} // verus!

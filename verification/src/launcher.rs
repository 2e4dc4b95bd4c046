//! From the launcher's path to the path of the game's executable beside it.

use vstd::prelude::*;
use vstd::string::*;

verus! {

/// Whether `c` is the letter `lower` in either case.
pub open spec fn is_letter(c: char, lower: char, upper: char) -> bool {
    c == lower || c == upper
}

/// Whether a path ends in `.exe`, in any mix of upper and lower case.
pub open spec fn ends_in_exe(path: Seq<char>) -> bool {
    &&& path.len() >= 4
    &&& path[path.len() - 4] == '.'
    &&& is_letter(path[path.len() - 3], 'e', 'E')
    &&& is_letter(path[path.len() - 2], 'x', 'X')
    &&& is_letter(path[path.len() - 1], 'e', 'E')
}

/// How many characters the launcher's name has more than the game's:
/// those of `-launcher.exe`, or those of `-launcher`.
pub open spec fn launcher_suffix_length(path: Seq<char>) -> int {
    if ends_in_exe(path) {
        13
    } else {
        9
    }
}

/// The path of the game's executable: the launcher's path without its last
/// characters, as many as the launcher's suffix has, and with `.exe` in
/// lower case behind it where the launcher's path ended in `.exe`.
pub open spec fn executable_of(path: Seq<char>) -> Seq<char> {
    if ends_in_exe(path) {
        path.take(path.len() - 13) + ".exe"@
    } else {
        path.take(path.len() - 9)
    }
}

/// Whether the launcher's path is long enough to hold the suffix that is cut off.
pub fn has_launcher_suffix_length(launcher_path: &str) -> (long_enough: bool)
    ensures
        long_enough == (launcher_path@.len() >= launcher_suffix_length(launcher_path@)),
{
    let length = launcher_path.unicode_len();
    if is_exe(launcher_path) {
        length >= 13
    } else {
        length >= 9
    }
}

fn is_exe(path: &str) -> (exe: bool)
    ensures
        exe == ends_in_exe(path@),
{
    let length = path.unicode_len();
    if length < 4 {
        return false;
    }
    let dot = path.get_char(length - 4);
    let first = path.get_char(length - 3);
    let second = path.get_char(length - 2);
    let third = path.get_char(length - 1);
    dot == '.' && (first == 'e' || first == 'E') && (second == 'x' || second == 'X') && (third
        == 'e' || third == 'E')
}

/// The path of the game's executable for the path of its launcher, which
/// ends in `-launcher` or, in any case of the letters, in `-launcher.exe`.
/// The suffix is cut off by its length, so a path that ends otherwise loses
/// its last characters all the same.
pub fn find_ja2_executable(launcher_path: &str) -> (executable_path: String)
    requires
        launcher_path@.len() >= launcher_suffix_length(launcher_path@),
    ensures
        executable_path@ == executable_of(launcher_path@),
{
    let length = launcher_path.unicode_len();
    if is_exe(launcher_path) {
        let mut executable_path = launcher_path.substring_char(0, length - 13).to_owned();
        executable_path.append(".exe");
        assert(executable_path@ =~= executable_of(launcher_path@));
        executable_path
    } else {
        let executable_path = launcher_path.substring_char(0, length - 9).to_owned();
        assert(executable_path@ =~= executable_of(launcher_path@));
        executable_path
    }
}

} // verus!

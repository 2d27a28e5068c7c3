use vstd::prelude::*;
use vstd::string::*;
use crate::config::ResolvedConfig;
use crate::text::{
    dec_str, find_char, index_from, join_strings, join_with, push_decimal, replace_all, replace_str, str_eq,
    trim_end, trim_end_str, trim_start, trim_str, views,
};

verus! {

/// The line that opens the managed block.
pub const BEGIN_MARKER: &'static str = "# PortaQEMU BEGIN";

/// The line that closes the managed block.
pub const END_MARKER: &'static str = "# PortaQEMU END";

/// Why the SSH configuration could not be changed.
#[derive(Debug, Clone, PartialEq, Eq)]
pub enum SshConfigError {
    Io(String),
    NotFound,
}

/// The host entry for the VM.
pub open spec fn block_text(name: Seq<char>, port: u16, user: Seq<char>, identity: Seq<char>) -> Seq<char> {
    "Host PortaQEMU-"@ + name + "\n\tHostName localhost\n\tPort "@ + dec_str(port as nat) + "\n\tUser "@ + user
        + "\n\tIdentityFile "@ + replace_all(identity, "\\"@, "/"@)
        + "\n\tStrictHostKeyChecking no\n\tUserKnownHostsFile /dev/null\n"@
}

/// `line` without one trailing carriage return.
pub open spec fn strip_cr(line: Seq<char>) -> Seq<char> {
    if line.len() > 0 && line.last() == '\r' {
        line.drop_last()
    } else {
        line
    }
}

/// The lines of `s` from position `i` on, as `str::lines` gives them: split
/// at each newline, a carriage return before it dropped, no empty last line.
pub open spec fn lines_from(s: Seq<char>, i: int) -> Seq<Seq<char>>
    decreases s.len() - i,
{
    if i < 0 || i >= s.len() {
        Seq::empty()
    } else {
        match index_from(s, '\n', i) {
            Some(j) => if i <= j < s.len() {
                seq![strip_cr(s.subrange(i, j))] + lines_from(s, j + 1)
            } else {
                Seq::empty()
            },
            None => seq![s.subrange(i, s.len() as int)],
        }
    }
}

/// The lines outside every marked block; the marker lines themselves, told
/// apart with surrounding white space ignored, are dropped too.
pub open spec fn kept_lines(lines: Seq<Seq<char>>, in_block: bool) -> Seq<Seq<char>>
    decreases lines.len(),
{
    if lines.len() == 0 {
        Seq::empty()
    } else {
        let t = trim_end(trim_start(lines[0]));
        let rest = lines.drop_first();
        if t == BEGIN_MARKER@ {
            kept_lines(rest, true)
        } else if t == END_MARKER@ {
            kept_lines(rest, false)
        } else if in_block {
            kept_lines(rest, true)
        } else {
            seq![lines[0]] + kept_lines(rest, false)
        }
    }
}

/// The content without its managed block, lines joined by newlines.
pub open spec fn without_block(content: Seq<char>) -> Seq<char> {
    join_with(kept_lines(lines_from(content, 0), false), "\n"@)
}

/// The content with the VM's block placed at its end, after any earlier
/// block is removed.
pub open spec fn with_block(content: Seq<char>, block: Seq<char>) -> Seq<char> {
    trim_end(without_block(content)) + "\n"@ + BEGIN_MARKER@ + "\n"@ + block + "\n"@ + END_MARKER@ + "\n"@
}

/// The SSH host entry for the VM, with the identity path in forward slashes.
pub fn generate_ssh_config_block(config: &ResolvedConfig) -> (r: String)
    ensures
        r@ == block_text(config.vm.name@, config.network.ssh_host_port, config.vscode.ssh_user@,
            config.vscode.identity_file@),
{
    proof {
        reveal_strlit("\\");
        reveal_strlit("/");
    }
    let identity = replace_str(config.vscode.identity_file.as_str(), "\\", "/");
    let mut s = String::from_str("Host PortaQEMU-");
    s.append(config.vm.name.as_str());
    s.append("\n\tHostName localhost\n\tPort ");
    push_decimal(&mut s, config.network.ssh_host_port as u64);
    s.append("\n\tUser ");
    s.append(config.vscode.ssh_user.as_str());
    s.append("\n\tIdentityFile ");
    s.append(identity.as_str());
    s.append("\n\tStrictHostKeyChecking no\n\tUserKnownHostsFile /dev/null\n");
    s
}

/// The block as printed for the user to paste.
pub fn print_ssh_config(config: &ResolvedConfig) -> (r: String)
    ensures
        r@ == block_text(config.vm.name@, config.network.ssh_host_port, config.vscode.ssh_user@,
            config.vscode.identity_file@),
{
    generate_ssh_config_block(config)
}

/// Splits `s` into lines as `str::lines` does.
pub fn split_lines(s: &str) -> (r: Vec<String>)
    ensures
        views(r@) == lines_from(s@, 0),
{
    let n = s.unicode_len();
    let mut out: Vec<String> = Vec::new();
    let mut i: usize = 0;
    while i < n
        invariant
            i <= n,
            n == s@.len(),
            lines_from(s@, 0) == views(out@) + lines_from(s@, i as int),
        decreases n - i,
    {
        let ghost before = views(out@);
        match find_char(s, '\n', i) {
            Some(j) => {
                let piece = s.substring_char(i, j);
                let pl = piece.unicode_len();
                let line = if pl > 0 && piece.get_char(pl - 1) == '\r' {
                    piece.substring_char(0, pl - 1)
                } else {
                    piece
                };
                assert(line@ == strip_cr(s@.subrange(i as int, j as int))) by {
                    if pl > 0 {
                        assert(piece@.drop_last() =~= piece@.subrange(0, pl - 1));
                    }
                }
                out.push(String::from_str(line));
                assert(views(out@) =~= before + seq![line@]);
                i = j + 1;
            },
            None => {
                out.push(String::from_str(s.substring_char(i, n)));
                assert(views(out@) =~= before + seq![s@.subrange(i as int, n as int)]);
                i = n;
            },
        }
    }
    assert(views(out@) + lines_from(s@, n as int) =~= views(out@));
    out
}

/// Removes every managed block, markers included, from the content.
pub fn remove_block_from_content(content: &str) -> (r: String)
    ensures
        r@ == without_block(content@),
{
    let lines = split_lines(content);
    let ghost all = views(lines@);
    let mut result: Vec<String> = Vec::new();
    let mut in_block = false;
    let mut i: usize = 0;
    assert(all.subrange(0, all.len() as int) =~= all);
    while i < lines.len()
        invariant
            i <= lines@.len(),
            all == views(lines@),
            kept_lines(all, false) == views(result@) + kept_lines(all.subrange(i as int, all.len() as int), in_block),
        decreases lines@.len() - i,
    {
        let ghost rest = all.subrange(i as int, all.len() as int);
        assert(rest.drop_first() =~= all.subrange(i + 1, all.len() as int));
        let line = lines[i].as_str();
        let t = trim_str(line);
        if str_eq(t, BEGIN_MARKER) {
            in_block = true;
        } else if str_eq(t, END_MARKER) {
            in_block = false;
        } else if !in_block {
            let ghost before = views(result@);
            result.push(String::from_str(line));
            assert(views(result@) =~= before + seq![line@]);
            assert(views(result@) + kept_lines(rest.drop_first(), in_block)
                =~= before + (seq![line@] + kept_lines(rest.drop_first(), in_block)));
        }
        i = i + 1;
    }
    assert(kept_lines(all.subrange(i as int, all.len() as int), in_block) =~= Seq::<Seq<char>>::empty());
    assert(views(result@) =~= kept_lines(all, false));
    join_strings(&result, "\n")
}

/// The new SSH configuration: the old one without any managed block, then
/// the VM's block between the markers.
pub fn ssh_config_with_block(existing: &str, config: &ResolvedConfig) -> (r: String)
    ensures
        r@ == with_block(existing@, block_text(config.vm.name@, config.network.ssh_host_port,
            config.vscode.ssh_user@, config.vscode.identity_file@)),
{
    let cleaned = remove_block_from_content(existing);
    let block = generate_ssh_config_block(config);
    let mut s = String::from_str(trim_end_str(cleaned.as_str()));
    s.append("\n");
    s.append(BEGIN_MARKER);
    s.append("\n");
    s.append(block.as_str());
    s.append("\n");
    s.append(END_MARKER);
    s.append("\n");
    s
}

} // verus!

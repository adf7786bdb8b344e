//! Construction of the shell commands run on a remote host.
use vstd::prelude::*;
use vstd::string::*;

verus! {

/// The characters `export `.
pub open spec fn export_word() -> Seq<char> {
    seq!['e', 'x', 'p', 'o', 'r', 't', ' ']
}

/// One assignment of the export prefix: `export KEY=VALUE;`, unescaped.
pub open spec fn export_entry(key: Seq<char>, value: Seq<char>) -> Seq<char> {
    export_word() + key + seq!['='] + value + seq![';']
}

/// The views of the keys and values of an environment mapping.
pub open spec fn env_view(envs: Seq<(String, String)>) -> Seq<(Seq<char>, Seq<char>)> {
    envs.map_values(|p: (String, String)| (p.0@, p.1@))
}

/// The export prefix: the entries of `envs`, in order, joined by a single space.
pub open spec fn env_prefix_of(envs: Seq<(Seq<char>, Seq<char>)>) -> Seq<char>
    decreases envs.len(),
{
    if envs.len() == 0 {
        Seq::empty()
    } else if envs.len() == 1 {
        export_entry(envs[0].0, envs[0].1)
    } else {
        env_prefix_of(envs.drop_last()) + seq![' '] + export_entry(envs.last().0, envs.last().1)
    }
}

/// The path of `name` inside the remote directory `dir`.
pub open spec fn join_path(dir: Seq<char>, name: Seq<char>) -> Seq<char> {
    if dir.len() == 0 {
        name
    } else if dir.last() == '/' {
        dir + name
    } else {
        dir + seq!['/'] + name
    }
}

/// The characters `sudo `, present only when privilege escalation is asked for.
pub open spec fn sudo_part(use_sudo: bool) -> Seq<char> {
    if use_sudo {
        seq!['s', 'u', 'd', 'o', ' ']
    } else {
        Seq::empty()
    }
}

/// The part of the remote command that comes before the optional `sudo `.
pub open spec fn command_head(dir: Seq<char>, prefix: Seq<char>) -> Seq<char> {
    seq!['c', 'd', ' '] + dir + seq![';', ' '] + prefix + seq![' ']
}

/// The part of the remote command that runs the script.
pub open spec fn command_tail(script: Seq<char>) -> Seq<char> {
    seq!['b', 'a', 's', 'h', ' '] + script
}

/// `cd <dir>; <prefix> [sudo ]bash <script>`.
pub open spec fn remote_command_of(
    dir: Seq<char>,
    prefix: Seq<char>,
    script: Seq<char>,
    use_sudo: bool,
) -> Seq<char> {
    command_head(dir, prefix) + sudo_part(use_sudo) + command_tail(script)
}

/// `rm <script>`.
pub open spec fn cleanup_command_of(script: Seq<char>) -> Seq<char> {
    seq!['r', 'm', ' '] + script
}

/// Builds the export prefix of an environment mapping.
pub fn env_prefix(envs: &Vec<(String, String)>) -> (r: String)
    ensures
        r@ == env_prefix_of(env_view(envs@)),
{
    let mut r = String::new();
    let mut i: usize = 0;
    while i < envs.len()
        invariant
            i <= envs.len(),
            r@ == env_prefix_of(env_view(envs@).take(i as int)),
        decreases envs.len() - i,
    {
        let ghost before = r@;
        if i > 0 {
            r.append(" ");
            proof { reveal_strlit(" "); }
        }
        r.append("export ");
        r.append(envs[i].0.as_str());
        r.append("=");
        r.append(envs[i].1.as_str());
        r.append(";");
        proof {
            reveal_strlit("export ");
            reveal_strlit("=");
            reveal_strlit(";");
            let s = env_view(envs@).take(i + 1);
            assert(s.drop_last() =~= env_view(envs@).take(i as int));
            assert(s.last() == (envs@[i as int].0@, envs@[i as int].1@));
            if i == 0 {
                assert(r@ =~= export_entry(s[0].0, s[0].1));
            } else {
                assert(r@ =~= before + seq![' '] + export_entry(s.last().0, s.last().1));
            }
        }
        i = i + 1;
    }
    assert(env_view(envs@).take(envs.len() as int) =~= env_view(envs@));
    r
}

/// The remote path of an uploaded script: `name` inside `dir`.
pub fn remote_script_path(dir: &str, name: &str) -> (r: String)
    ensures
        r@ == join_path(dir@, name@),
{
    let mut r = String::from_str(dir);
    let n = dir.unicode_len();
    if n > 0 && dir.get_char(n - 1) != '/' {
        r.append("/");
        proof { reveal_strlit("/"); }
    }
    r.append(name);
    proof {
        if n > 0 && dir@.last() != '/' {
            assert(r@ =~= dir@ + seq!['/'] + name@);
        }
    }
    r
}

/// Builds the command that runs an uploaded script:
/// `cd <dir>; <prefix> [sudo ]bash <script>`.
pub fn remote_command(dir: &str, prefix: &str, script: &str, use_sudo: bool) -> (r: String)
    ensures
        r@ == remote_command_of(dir@, prefix@, script@, use_sudo),
{
    let mut r = String::from_str("cd ");
    r.append(dir);
    r.append("; ");
    r.append(prefix);
    r.append(" ");
    if use_sudo {
        r.append("sudo ");
    }
    r.append("bash ");
    r.append(script);
    proof {
        reveal_strlit("cd ");
        reveal_strlit("; ");
        reveal_strlit(" ");
        reveal_strlit("sudo ");
        reveal_strlit("bash ");
        assert(r@ =~= remote_command_of(dir@, prefix@, script@, use_sudo));
    }
    r
}

/// Builds the command that removes an uploaded script: `rm <script>`.
pub fn cleanup_command(script: &str) -> (r: String)
    ensures
        r@ == cleanup_command_of(script@),
{
    let r = String::from_str("rm ").concat(script);
    proof {
        reveal_strlit("rm ");
        assert(r@ =~= cleanup_command_of(script@));
    }
    r
}

/// Whether the word `sudo` starts at position `i` of `s`.
pub open spec fn sudo_at(s: Seq<char>, i: int) -> bool {
    &&& 0 <= i
    &&& i + 4 <= s.len()
    &&& s[i] == 's'
    &&& s[i + 1] == 'u'
    &&& s[i + 2] == 'd'
    &&& s[i + 3] == 'o'
}

/// Whether the word `sudo` occurs anywhere in `s`.
pub open spec fn contains_sudo(s: Seq<char>) -> bool {
    exists|i: int| sudo_at(s, i)
}

/// Two texts without `sudo` joined where no occurrence can straddle the seam.
proof fn lemma_join_without_sudo(a: Seq<char>, b: Seq<char>)
    requires
        !contains_sudo(a),
        !contains_sudo(b),
        (a.len() > 0 && a.last() != 's' && a.last() != 'u' && a.last() != 'd') || (b.len() > 0
            && b[0] != 'u' && b[0] != 'd' && b[0] != 'o'),
    ensures
        !contains_sudo(a + b),
{
    let s = a + b;
    assert forall|i: int| !sudo_at(s, i) by {
        if sudo_at(s, i) {
            if i + 4 <= a.len() {
                assert(sudo_at(a, i));
            } else if i >= a.len() {
                assert(sudo_at(b, i - a.len()));
            } else {
                assert(s[a.len() - 1] == a.last());
                assert(s[a.len() as int] == b[0]);
            }
        }
    }
}

proof fn lemma_short_without_sudo(s: Seq<char>)
    requires
        s.len() < 4,
    ensures
        !contains_sudo(s),
{
}

/// The part of a remote command before the optional `sudo ` holds no `sudo`
/// when its directory and export prefix hold none, and ends in a space.
proof fn lemma_head_without_sudo(dir: Seq<char>, prefix: Seq<char>)
    requires
        !contains_sudo(dir),
        !contains_sudo(prefix),
    ensures
        !contains_sudo(command_head(dir, prefix)),
        command_head(dir, prefix).last() == ' ',
{
    let cd = seq!['c', 'd', ' '];
    let semi = seq![';', ' '];
    let sp = seq![' '];
    lemma_short_without_sudo(cd);
    lemma_short_without_sudo(semi);
    lemma_short_without_sudo(sp);
    lemma_join_without_sudo(cd, dir);
    lemma_join_without_sudo(cd + dir, semi);
    lemma_join_without_sudo(cd + dir + semi, prefix);
    lemma_join_without_sudo(cd + dir + semi + prefix, sp);
    assert(command_head(dir, prefix) == cd + dir + semi + prefix + sp);
}

proof fn lemma_tail_without_sudo(script: Seq<char>)
    requires
        !contains_sudo(script),
    ensures
        !contains_sudo(command_tail(script)),
{
    let bash = seq!['b', 'a', 's', 'h', ' '];
    assert forall|i: int| !sudo_at(bash, i) by {
        if sudo_at(bash, i) {
            assert(i == 0 || i == 1);
        }
    }
    lemma_join_without_sudo(bash, script);
}

/// Without privilege escalation the remote command never holds `sudo`; with
/// it, `sudo` occurs exactly once, immediately before `bash`. Both provided
/// that the directory, the export prefix and the script path hold none.
pub proof fn lemma_sudo_placement(dir: Seq<char>, prefix: Seq<char>, script: Seq<char>)
    requires
        !contains_sudo(dir),
        !contains_sudo(prefix),
        !contains_sudo(script),
    ensures
        !contains_sudo(remote_command_of(dir, prefix, script, false)),
        forall|i: int|
            sudo_at(remote_command_of(dir, prefix, script, true), i) <==> i == command_head(
                dir,
                prefix,
            ).len(),
        remote_command_of(dir, prefix, script, true).subrange(
            command_head(dir, prefix).len() + 5int,
            command_head(dir, prefix).len() + 9int,
        ) == seq!['b', 'a', 's', 'h'],
{
    let head = command_head(dir, prefix);
    let tail = command_tail(script);
    lemma_head_without_sudo(dir, prefix);
    lemma_tail_without_sudo(script);
    lemma_join_without_sudo(head, tail);
    assert(remote_command_of(dir, prefix, script, false) =~= head + tail);
    let su = seq!['s', 'u', 'd', 'o', ' '];
    let c = remote_command_of(dir, prefix, script, true);
    assert(c =~= head + su + tail);
    let h = head.len() as int;
    assert forall|i: int| sudo_at(c, i) <==> i == h by {
        if i == h {
            assert(c[h] == 's' && c[h + 1] == 'u' && c[h + 2] == 'd' && c[h + 3] == 'o');
        } else if sudo_at(c, i) {
            if i + 4 <= h {
                assert(sudo_at(head, i));
            } else if i < h {
                assert(c[h - 1] == ' ');
            } else if i < h + 5 {
                assert(c[i] != 's');
            } else {
                assert(sudo_at(tail, i - h - 5));
            }
        }
    }
    assert(c.subrange(h + 5, h + 9) =~= seq!['b', 'a', 's', 'h']);
}

} // verus!

//! The task list and the selection of tasks by name.
use vstd::prelude::*;
use vstd::string::*;

verus! {

/// One script to run on one host.
pub struct Task {
    /// Used only to select tasks.
    pub name: String,
    /// Host alias, resolved through the SSH client configuration.
    pub host: String,
    /// Local path of the script.
    pub script_path: String,
    /// Remote directory the script is uploaded to and run in.
    pub working_dir: String,
    pub sudo: bool,
    /// Environment mapping, one entry per key.
    pub environments: Vec<(String, String)>,
}

/// The keys of an environment mapping.
pub open spec fn env_keys(envs: Seq<(String, String)>) -> Seq<Seq<char>> {
    envs.map_values(|p: (String, String)| p.0@)
}

impl Task {
    /// Each environment key occurs once.
    pub open spec fn wf(&self) -> bool {
        env_keys(self.environments@).no_duplicates()
    }
}

/// Whether each key of an environment mapping occurs once.
pub fn keys_distinct(envs: &Vec<(String, String)>) -> (r: bool)
    ensures
        r == env_keys(envs@).no_duplicates(),
{
    let n = envs.len();
    let mut i: usize = 0;
    while i < n
        invariant
            n == envs.len(),
            i <= n,
            forall|a: int, b: int| 0 <= a < b < n && a < i ==> envs@[a].0@ != envs@[b].0@,
        decreases n - i,
    {
        let mut j: usize = i + 1;
        while j < n
            invariant
                n == envs.len(),
                i < n,
                i < j <= n,
                forall|a: int, b: int| 0 <= a < b < n && a < i ==> envs@[a].0@ != envs@[b].0@,
                forall|b: int| i < b < j ==> envs@[i as int].0@ != envs@[b].0@,
            decreases n - j,
        {
            if envs[i].0 == envs[j].0 {
                assert(env_keys(envs@)[i as int] == env_keys(envs@)[j as int]);
                return false;
            }
            j = j + 1;
        }
        i = i + 1;
    }
    assert forall|a: int, b: int| 0 <= a < env_keys(envs@).len() && 0 <= b < env_keys(envs@).len()
        && a != b implies env_keys(envs@)[a] != env_keys(envs@)[b] by {
        if a < b {
            assert(envs@[a].0@ != envs@[b].0@);
        } else {
            assert(envs@[b].0@ != envs@[a].0@);
        }
    }
    true
}

/// The task list, in the order the tasks run.
pub struct Config {
    pub tasks: Vec<Task>,
}

/// The pieces of `s` between commas, from left to right; an empty `s` is one empty piece.
pub open spec fn split_commas(s: Seq<char>) -> Seq<Seq<char>>
    decreases s.len(),
{
    if s.len() == 0 {
        seq![Seq::empty()]
    } else if s.last() == ',' {
        split_commas(s.drop_last()).push(Seq::empty())
    } else {
        let p = split_commas(s.drop_last());
        p.update(p.len() - 1, p.last().push(s.last()))
    }
}

proof fn lemma_split_nonempty(s: Seq<char>)
    ensures
        split_commas(s).len() >= 1,
    decreases s.len(),
{
    if s.len() > 0 {
        lemma_split_nonempty(s.drop_last());
    }
}

/// The views of a list of strings.
pub open spec fn names_view(v: Seq<String>) -> Seq<Seq<char>> {
    v.map_values(|s: String| s@)
}

/// Splits a comma-separated list of task names.
pub fn parse_task_names(list: &str) -> (r: Vec<String>)
    ensures
        names_view(r@) == split_commas(list@),
{
    let n = list.unicode_len();
    let mut pieces: Vec<String> = Vec::new();
    let mut start: usize = 0;
    let mut i: usize = 0;
    assert(list@.take(0) =~= Seq::<char>::empty());
    assert(names_view(pieces@).push(list@.subrange(0, 0)) =~= split_commas(list@.take(0)));
    while i < n
        invariant
            n == list@.len(),
            start <= i <= n,
            names_view(pieces@).push(list@.subrange(start as int, i as int)) == split_commas(
                list@.take(i as int),
            ),
        decreases n - i,
    {
        let c = list.get_char(i);
        let ghost prev = split_commas(list@.take(i as int));
        proof {
            assert(list@.take(i + 1).drop_last() =~= list@.take(i as int));
            assert(list@.take(i + 1).last() == c);
            lemma_split_nonempty(list@.take(i as int));
        }
        if c == ',' {
            let piece = String::from_str(list.substring_char(start, i));
            pieces.push(piece);
            i = i + 1;
            start = i;
            proof {
                assert(names_view(pieces@) =~= names_view(pieces@).drop_last().push(
                    names_view(pieces@).last(),
                ));
                assert(names_view(pieces@) =~= prev);
                assert(list@.subrange(start as int, i as int) =~= Seq::<char>::empty());
                assert(split_commas(list@.take(i as int)) == prev.push(Seq::<char>::empty()));
                assert(names_view(pieces@).push(list@.subrange(start as int, i as int))
                    =~= split_commas(list@.take(i as int)));
            }
        } else {
            i = i + 1;
            proof {
                assert(prev == names_view(pieces@).push(list@.subrange(start as int, i - 1)));
                assert(split_commas(list@.take(i as int)) == prev.update(
                    prev.len() - 1,
                    prev.last().push(c),
                ));
                assert(list@.subrange(start as int, i as int) =~= list@.subrange(
                    start as int,
                    i - 1,
                ).push(c));
                assert(names_view(pieces@).push(list@.subrange(start as int, i as int))
                    =~= split_commas(list@.take(i as int)));
            }
        }
    }
    let last = String::from_str(list.substring_char(start, n));
    pieces.push(last);
    proof {
        assert(list@.take(n as int) =~= list@);
    }
    assert(names_view(pieces@) =~= split_commas(list@));
    pieces
}

/// Whether the task called `name` runs: always without a filter, else only
/// when the filter lists its name.
pub fn should_execute(filter: &Option<Vec<String>>, name: &String) -> (r: bool)
    ensures
        r == (filter is None || names_view(filter.unwrap()@).contains(name@)),
{
    match filter {
        None => true,
        Some(v) => {
            assert(filter.unwrap()@ == v@);
            let mut i: usize = 0;
            while i < v.len()
                invariant
                    filter.unwrap()@ == v@,
                    i <= v.len(),
                    forall|j: int| 0 <= j < i ==> v@[j]@ != name@,
                decreases v.len() - i,
            {
                if v[i] == *name {
                    assert(names_view(v@)[i as int] == name@);
                    assert(names_view(v@).contains(name@));
                    return true;
                }
                i = i + 1;
            }
            assert forall|j: int| 0 <= j < names_view(v@).len() implies names_view(v@)[j]
                != name@ by {
                assert(names_view(v@)[j] == v@[j]@);
            }
            false
        },
    }
}

/// Location of the SSH client configuration file.
pub struct SshConfigPath(pub String);

impl SshConfigPath {
    /// `<home>/.ssh/config`.
    pub fn under_home(home: &str) -> (r: SshConfigPath)
        ensures
            r.0@ == home@ + seq!['/', '.', 's', 's', 'h', '/', 'c', 'o', 'n', 'f', 'i', 'g'],
    {
        let r = String::from_str(home).concat("/.ssh/config");
        proof {
            reveal_strlit("/.ssh/config");
        }
        SshConfigPath(r)
    }
}

} // verus!

//! Node configuration: the argument vectors and ready phrases handed to the
//! fleet, their validation, and the development-mode finalization.

use vstd::prelude::*;

use crate::chain_errors::ChainErrors;
use crate::strutil::{
    dec_str, is_ws, is_ws_char, lower, to_chars, to_lower_chars, trim_chars, trim_spec,
    usize_to_string,
};

verus! {

/// Directory under the user's home directory holding all chain data.
pub const AMARELEO_HOME_DIR: &'static str = ".amareleo";

/// Subdirectory holding the ledger storage of one run.
pub const AMARELEO_CHAIN_DIR: &'static str = "chain";

/// File name of the on-disk configuration.
pub const AMARELEO_CHAIN_CFG: &'static str = "chain-cfg.json";

/// Ready phrase of the first node.
pub const NODE0_START_COMPLETE: &'static str = "No connected validators";

/// Ready phrase of the second node.
pub const NODE1_START_COMPLETE: &'static str = "Connected to 1 validators";

/// Ready phrase of the third node.
pub const NODE2_START_COMPLETE: &'static str = "Connected to 2 validators";

/// Ready phrase of the fourth node.
pub const NODE3_START_COMPLETE: &'static str = "Advanced to block";

/// Arguments and ready phrase of one configured node.
#[derive(Debug)]
pub struct NodeArgs {
    /// Argument vector handed to the node process.
    pub node: Vec<String>,
    /// Phrase that marks the node as fully initialized.
    pub started: String,
}

/// The configured fleet: one entry per node.
#[derive(Debug)]
pub struct ChainArgs {
    /// Node configurations, in start order.
    pub snarkos: Vec<NodeArgs>,
}

impl NodeArgs {
    /// The argument vector as a sequence of character sequences.
    pub open spec fn args_view(&self) -> Seq<Seq<char>> {
        self.node.deep_view()
    }

    /// The ready phrase as a character sequence.
    pub open spec fn phrase_view(&self) -> Seq<char> {
        self.started@
    }
}

/// The default argument vector of node `num`: the base arguments, `--norest`
/// for every node but the first, and, when `all` is set, the development-mode
/// flag with the node's index.
pub open spec fn spec_default_node_args(num: nat, all: bool) -> Seq<Seq<char>> {
    let base = seq!["start"@, "--nodisplay"@, "--validator"@];
    let with_rest = if num != 0 {
        base.push("--norest"@)
    } else {
        base
    };
    if all {
        with_rest.push("--dev"@).push(dec_str(num))
    } else {
        with_rest
    }
}

/// Builds the default argument vector of node `num`.
pub fn default_node_args(num: usize, all: bool) -> (r: Vec<String>)
    ensures
        r.deep_view() == spec_default_node_args(num as nat, all),
{
    let mut args: Vec<String> = Vec::new();
    args.push(String::from_str("start"));
    args.push(String::from_str("--nodisplay"));
    args.push(String::from_str("--validator"));
    if num != 0 {
        args.push(String::from_str("--norest"));
    }
    if all {
        args.push(String::from_str("--dev"));
        args.push(usize_to_string(num));
    }
    proof {
        assert(args.deep_view() =~= spec_default_node_args(num as nat, all));
    }
    args
}

/// Accepts a storage path probed by the caller: the path is handed back
/// exactly when it names an existing directory.
pub fn folder_exists(path: String, exists: bool, is_dir: bool) -> (r: Option<String>)
    ensures
        exists && is_dir ==> r == Some(path),
        !(exists && is_dir) ==> r is None,
{
    if exists && is_dir {
        Some(path)
    } else {
        None
    }
}

/// Accepts a configuration path probed by the caller: the path is handed
/// back exactly when it names an existing file.
pub fn file_exists(path: String, exists: bool, is_file: bool) -> (r: Option<String>)
    ensures
        exists && is_file ==> r == Some(path),
        !(exists && is_file) ==> r is None,
{
    if exists && is_file {
        Some(path)
    } else {
        None
    }
}

/// Outcome of probing the user's home directory for the per-user data path.
#[derive(Debug, PartialEq, Eq)]
pub enum HomeCheck {
    /// The home directory can be used; the payload is its path.
    Usable(String),
    /// No home directory is known for the user.
    Missing,
    /// The reported home path does not exist.
    NotFound,
    /// The reported home path is not a directory.
    NotADirectory,
}

/// Decides whether the user's home directory, as probed by the caller, can
/// hold the per-user data path: a user without a home directory is the
/// fleet's own error, a home path that is missing or not a directory is
/// reported by kind, and otherwise the path is handed back.
pub fn home_dir_check(home: Option<String>, exists: bool, is_dir: bool) -> (r: HomeCheck)
    ensures
        home is None ==> r == HomeCheck::Missing,
        home matches Some(p) ==> r == (if !exists {
            HomeCheck::NotFound
        } else if !is_dir {
            HomeCheck::NotADirectory
        } else {
            HomeCheck::Usable(p)
        }),
{
    match home {
        None => HomeCheck::Missing,
        Some(p) => {
            if !exists {
                HomeCheck::NotFound
            } else if !is_dir {
                HomeCheck::NotADirectory
            } else {
                HomeCheck::Usable(p)
            }
        },
    }
}

/// Law: a finalized argument vector ends with the development-mode flag
/// followed by the node's own index, whatever the source configuration held.
pub proof fn lemma_finalized_args_end_with_dev(args: Seq<Seq<char>>, fin: Seq<Seq<char>>, i: nat)
    requires
        fin == args + seq!["--dev"@, dec_str(i)],
    ensures
        fin.len() == args.len() + 2,
        fin[fin.len() - 2] == "--dev"@,
        fin[fin.len() - 1] == dec_str(i),
{
}

/// Whether the command writing a default configuration may proceed: an
/// existing configuration is only overwritten when forced.
pub fn init_overwrite_allowed(force: bool, cfg_exists: bool) -> (r: bool)
    ensures
        r == (force || !cfg_exists),
{
    force || !cfg_exists
}

/// A configured argument holds a whitespace character anywhere: such an
/// argument must be split into separate arguments instead.
pub open spec fn arg_has_space(p: Seq<char>) -> bool {
    exists|j: int| 0 <= j < p.len() && is_ws_char(p[j])
}

/// A configured argument is exactly the reserved development-mode flag.
pub open spec fn is_dev_arg(p: Seq<char>) -> bool {
    trim_spec(lower(p)) == "--dev"@
}

/// The rule a parameter can break: being the reserved flag when `dev` is
/// set, holding whitespace otherwise.
pub open spec fn bad_pred(dev: bool) -> spec_fn(Seq<char>) -> bool {
    if dev {
        |p: Seq<char>| is_dev_arg(p)
    } else {
        |p: Seq<char>| arg_has_space(p)
    }
}

/// The first parameter of one argument vector that breaks the rule.
pub open spec fn first_bad_in_args(args: Seq<Seq<char>>, bad: spec_fn(Seq<char>) -> bool) -> Option<
    Seq<char>,
>
    decreases args.len(),
{
    if args.len() == 0 {
        None
    } else if bad(args[0]) {
        Some(args[0])
    } else {
        first_bad_in_args(args.drop_first(), bad)
    }
}

/// The first parameter across the whole fleet that breaks the rule, visiting
/// nodes in order and each node's arguments in order.
pub open spec fn first_bad_param(nodes: Seq<NodeArgs>, bad: spec_fn(Seq<char>) -> bool) -> Option<
    Seq<char>,
>
    decreases nodes.len(),
{
    if nodes.len() == 0 {
        None
    } else {
        match first_bad_in_args(nodes[0].args_view(), bad) {
            Some(p) => Some(p),
            None => first_bad_param(nodes.drop_first(), bad),
        }
    }
}

/// The scan over one argument vector finds a parameter exactly when one
/// breaking the rule exists, and what it finds breaks the rule.
pub proof fn lemma_bad_in_args_found(args: Seq<Seq<char>>, bad: spec_fn(Seq<char>) -> bool)
    ensures
        (first_bad_in_args(args, bad) is Some) <==> (exists|j: int|
            0 <= j < args.len() && bad(args[j])),
        first_bad_in_args(args, bad) matches Some(p) ==> bad(p),
    decreases args.len(),
{
    if args.len() > 0 {
        lemma_bad_in_args_found(args.drop_first(), bad);
        if !bad(args[0]) {
            if exists|j: int| 0 <= j < args.len() && bad(args[j]) {
                let j = choose|j: int| 0 <= j < args.len() && bad(args[j]);
                assert(args.drop_first()[j - 1] == args[j]);
            }
            assert forall|j: int| 0 <= j < args.drop_first().len() && bad(
                args.drop_first()[j],
            ) implies exists|k: int| 0 <= k < args.len() && bad(args[k]) by {
                assert(args[j + 1] == args.drop_first()[j]);
            }
        }
    }
}

/// The scan over the fleet finds a parameter exactly when one breaking the
/// rule exists in some node, and what it finds breaks the rule.
pub proof fn lemma_bad_param_found(nodes: Seq<NodeArgs>, bad: spec_fn(Seq<char>) -> bool)
    ensures
        (first_bad_param(nodes, bad) is Some) <==> (exists|i: int, j: int|
            0 <= i < nodes.len() && 0 <= j < nodes[i].args_view().len() && bad(
                nodes[i].args_view()[j],
            )),
        first_bad_param(nodes, bad) matches Some(p) ==> bad(p),
    decreases nodes.len(),
{
    if nodes.len() > 0 {
        lemma_bad_in_args_found(nodes[0].args_view(), bad);
        lemma_bad_param_found(nodes.drop_first(), bad);
        if first_bad_in_args(nodes[0].args_view(), bad) is None {
            if exists|i: int, j: int|
                0 <= i < nodes.len() && 0 <= j < nodes[i].args_view().len() && bad(
                    nodes[i].args_view()[j],
                ) {
                let (i, j) = choose|i: int, j: int|
                    0 <= i < nodes.len() && 0 <= j < nodes[i].args_view().len() && bad(
                        nodes[i].args_view()[j],
                    );
                if i > 0 {
                    assert(nodes.drop_first()[i - 1] == nodes[i]);
                }
            }
            assert forall|i: int, j: int|
                0 <= i < nodes.drop_first().len() && 0 <= j
                    < nodes.drop_first()[i].args_view().len() && bad(
                    nodes.drop_first()[i].args_view()[j],
                ) implies exists|k: int, l: int|
                0 <= k < nodes.len() && 0 <= l < nodes[k].args_view().len() && bad(
                    nodes[k].args_view()[l],
                ) by {
                assert(nodes[i + 1] == nodes.drop_first()[i]);
            }
        }
    }
}

/// Whether `p` breaks the rule selected by `dev`.
pub fn param_bad(p: &String, dev: bool) -> (r: bool)
    ensures
        r == bad_pred(dev)(p@),
{
    if dev {
        let low = to_lower_chars(p.as_str());
        let t = trim_chars(&low);
        proof {
            reveal_strlit("--dev");
        }
        let ok = t.len() == 5 && t[0] == '-' && t[1] == '-' && t[2] == 'd'
            && t[3] == 'e' && t[4] == 'v';
        proof {
            if ok {
                assert(t@ =~= "--dev"@);
            } else {
                if t@ == "--dev"@ {
                    assert(t@.len() == 5);
                    assert(t@[0] == '-' && t@[1] == '-' && t@[2] == 'd' && t@[3] == 'e' && t@[4]
                        == 'v');
                }
            }
        }
        ok
    } else {
        let chars = to_chars(p.as_str());
        let mut i: usize = 0;
        let mut found = false;
        let n = chars.len();
        while i < n
            invariant
                n == p@.len(),
                chars@ == p@,
                i <= n,
                found <==> exists|j: int| 0 <= j < i && is_ws_char(p@[j]),
            decreases n - i,
        {
            if is_ws(chars[i]) {
                found = true;
            }
            i = i + 1;
        }
        found
    }
}

/// Finds the first parameter in the fleet that breaks the rule selected by
/// `dev`, in scan order.
pub fn first_violation(nodes: &Vec<NodeArgs>, dev: bool) -> (r: Option<String>)
    ensures
        r matches Some(q) ==> first_bad_param(nodes@, bad_pred(dev)) == Some(q@),
        r is None ==> first_bad_param(nodes@, bad_pred(dev)) is None,
{
    let n = nodes.len();
    let mut ni: usize = 0;
    proof {
        assert(nodes@.skip(0) =~= nodes@);
    }
    while ni < n
        invariant
            n == nodes@.len(),
            ni <= n,
            first_bad_param(nodes@, bad_pred(dev)) == first_bad_param(
                nodes@.skip(ni as int),
                bad_pred(dev),
            ),
        decreases n - ni,
    {
        let args = &nodes[ni].node;
        let m = args.len();
        let mut ai: usize = 0;
        proof {
            assert(nodes@[ni as int].args_view().skip(0) =~= nodes@[ni as int].args_view());
        }
        while ai < m
            invariant
                n == nodes@.len(),
                ni < n,
                m == nodes@[ni as int].args_view().len(),
                m == args@.len(),
                args@ == nodes@[ni as int].node@,
                ai <= m,
                first_bad_param(nodes@, bad_pred(dev)) == first_bad_param(
                    nodes@.skip(ni as int),
                    bad_pred(dev),
                ),
                first_bad_in_args(nodes@[ni as int].args_view(), bad_pred(dev))
                    == first_bad_in_args(
                    nodes@[ni as int].args_view().skip(ai as int),
                    bad_pred(dev),
                ),
            decreases m - ai,
        {
            let ghost av = nodes@[ni as int].args_view();
            proof {
                assert(av.skip(ai as int)[0] == av[ai as int]);
                assert(av[ai as int] == args@[ai as int]@);
            }
            if param_bad(&args[ai], dev) {
                let q = args[ai].clone();
                proof {
                    assert(bad_pred(dev)(av[ai as int]));
                    assert(av.skip(ai as int).len() > 0);
                    assert(first_bad_in_args(av.skip(ai as int), bad_pred(dev)) == Some(
                        av[ai as int],
                    ));
                    assert(first_bad_param(nodes@.skip(ni as int), bad_pred(dev)) == Some(
                        av[ai as int],
                    )) by {
                        assert(nodes@.skip(ni as int)[0] == nodes@[ni as int]);
                        assert(first_bad_in_args(nodes@[ni as int].args_view(), bad_pred(dev))
                            == Some(av[ai as int]));
                    }
                    assert(q@ == av[ai as int]);
                    assert(first_bad_param(nodes@, bad_pred(dev)) == Some(q@));
                }
                return Some(q);
            }
            proof {
                assert(av.skip(ai as int).drop_first() =~= av.skip(ai + 1));
            }
            ai = ai + 1;
        }
        proof {
            let ghost av = nodes@[ni as int].args_view();
            assert(av.skip(m as int) =~= Seq::<Seq<char>>::empty());
            assert(first_bad_in_args(av, bad_pred(dev)) is None);
            assert(nodes@.skip(ni as int)[0] == nodes@[ni as int]);
            assert(nodes@.skip(ni as int).drop_first() =~= nodes@.skip(ni + 1));
        }
        ni = ni + 1;
    }
    proof {
        assert(nodes@.skip(n as int) =~= Seq::<NodeArgs>::empty());
    }
    None
}

/// The fleet `post` is the fleet `pre` with the development-mode flag and
/// each node's positional index appended to its arguments; the ready
/// phrases are untouched.
pub open spec fn finalized_from(pre: Seq<NodeArgs>, post: Seq<NodeArgs>) -> bool {
    post.len() == pre.len() && forall|i: int|
        0 <= i < pre.len() ==> (#[trigger] post[i].args_view() == pre[i].args_view() + seq![
            "--dev"@,
            dec_str(i as nat),
        ] && post[i].phrase_view() == pre[i].phrase_view())
}

impl ChainArgs {
    /// Builds the built-in default configuration: four nodes, each with its
    /// default argument vector and its own ready phrase.
    pub fn default_config() -> (r: ChainArgs)
        ensures
            r.snarkos@.len() == 4,
            forall|i: int|
                0 <= i < 4 ==> #[trigger] r.snarkos@[i].args_view() == spec_default_node_args(
                    i as nat,
                    false,
                ),
            r.snarkos@[0].phrase_view() == NODE0_START_COMPLETE@,
            r.snarkos@[1].phrase_view() == NODE1_START_COMPLETE@,
            r.snarkos@[2].phrase_view() == NODE2_START_COMPLETE@,
            r.snarkos@[3].phrase_view() == NODE3_START_COMPLETE@,
    {
        let mut snarkos: Vec<NodeArgs> = Vec::new();
        snarkos.push(
            NodeArgs {
                node: default_node_args(0, false),
                started: String::from_str(NODE0_START_COMPLETE),
            },
        );
        snarkos.push(
            NodeArgs {
                node: default_node_args(1, false),
                started: String::from_str(NODE1_START_COMPLETE),
            },
        );
        snarkos.push(
            NodeArgs {
                node: default_node_args(2, false),
                started: String::from_str(NODE2_START_COMPLETE),
            },
        );
        snarkos.push(
            NodeArgs {
                node: default_node_args(3, false),
                started: String::from_str(NODE3_START_COMPLETE),
            },
        );
        ChainArgs { snarkos }
    }

    /// Checks the fleet configuration and appends the development-mode flag
    /// and positional index to every node's arguments.
    ///
    /// A fleet is rejected when it is empty, when it holds more than ten
    /// nodes, when some argument holds a whitespace character, or when
    /// some argument is the reserved development-mode flag; the error names
    /// the first offending argument in scan order. Otherwise every node's
    /// argument vector gains `--dev` and the node's index, in that order.
    #[verifier::rlimit(50)]
    pub fn validated(self) -> (r: Result<ChainArgs, ChainErrors>)
        ensures
            self.snarkos@.len() == 0 ==> r == Err::<ChainArgs, ChainErrors>(
                ChainErrors::ConfigNodesNotFound,
            ),
            self.snarkos@.len() > 10 ==> r == Err::<ChainArgs, ChainErrors>(
                ChainErrors::ConfigTooManyNodes,
            ),
            1 <= self.snarkos@.len() <= 10 ==> (first_bad_param(self.snarkos@, bad_pred(false))
                matches Some(p) ==> (r matches Err(e) && e matches
            ChainErrors::ConfigRemoveArgSpace(q) && q@ == p)),
            (1 <= self.snarkos@.len() <= 10 && first_bad_param(self.snarkos@, bad_pred(false))
                is None) ==> (first_bad_param(self.snarkos@, bad_pred(true)) matches Some(p) ==> (
            r matches Err(e) && e matches ChainErrors::ConfigRemoveDevArg(q) && q@ == p)),
            (1 <= self.snarkos@.len() <= 10 && first_bad_param(self.snarkos@, bad_pred(false))
                is None && first_bad_param(self.snarkos@, bad_pred(true)) is None) ==> (r matches
            Ok(c) && finalized_from(self.snarkos@, c.snarkos@)),
    {
        if self.snarkos.len() == 0 {
            return Err(ChainErrors::ConfigNodesNotFound);
        }
        if self.snarkos.len() > 10 {
            return Err(ChainErrors::ConfigTooManyNodes);
        }
        match first_violation(&self.snarkos, false) {
            Some(p) => {
                return Err(ChainErrors::ConfigRemoveArgSpace(p));
            },
            None => {},
        }
        match first_violation(&self.snarkos, true) {
            Some(p) => {
                return Err(ChainErrors::ConfigRemoveDevArg(p));
            },
            None => {},
        }
        let ghost orig = self.snarkos@;
        let mut nodes = self.snarkos;
        let mut rev: Vec<NodeArgs> = Vec::new();
        proof {
            assert(orig.subrange(0, orig.len() as int) =~= orig);
        }
        while nodes.len() > 0
            invariant
                nodes@.len() + rev@.len() == orig.len(),
                nodes@ == orig.subrange(0, nodes@.len() as int),
                forall|q: int|
                    0 <= q < rev@.len() ==> rev@[q] == orig[orig.len() - 1 - q],
            decreases nodes@.len(),
        {
            let ghost before = nodes@;
            let last = nodes.pop().unwrap();
            proof {
                assert(before.subrange(0, before.len() - 1) =~= orig.subrange(
                    0,
                    before.len() - 1,
                ));
            }
            rev.push(last);
        }
        let mut out: Vec<NodeArgs> = Vec::new();
        while rev.len() > 0
            invariant
                rev@.len() + out@.len() == orig.len(),
                forall|q: int|
                    0 <= q < rev@.len() ==> rev@[q] == orig[orig.len() - 1 - q],
                forall|i: int|
                    0 <= i < out@.len() ==> (#[trigger] out@[i].args_view() == orig[i].args_view()
                        + seq!["--dev"@, dec_str(i as nat)] && out@[i].phrase_view()
                        == orig[i].phrase_view()),
            decreases rev@.len(),
        {
            let mut na = rev.pop().unwrap();
            proof {
                assert(na == orig[out@.len() as int]);
            }
            let ghost old_args = na.node.deep_view();
            let idx = out.len();
            na.node.push(String::from_str("--dev"));
            na.node.push(usize_to_string(idx));
            proof {
                assert(na.node.deep_view() =~= old_args + seq![
                    "--dev"@,
                    dec_str(idx as nat),
                ]);
            }
            out.push(na);
        }
        let c = ChainArgs { snarkos: out };
        proof {
            assert(c.snarkos@.len() == orig.len());
            assert forall|i: int| 0 <= i < orig.len() implies (#[trigger] c.snarkos@[i].args_view()
                == orig[i].args_view() + seq!["--dev"@, dec_str(i as nat)]
                && c.snarkos@[i].phrase_view() == orig[i].phrase_view()) by {
                assert(out@[i].args_view() == orig[i].args_view() + seq![
                    "--dev"@,
                    dec_str(i as nat),
                ]);
                assert(out@[i].phrase_view() == orig[i].phrase_view());
            }
            assert(finalized_from(orig, c.snarkos@));
        }
        Ok(c)
    }
}

} // verus!

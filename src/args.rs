//! The supervisor's command-line flags.
//!
//! `--no-reload` turns restarting off; `--ignore a,b` ignores the paths `a`
//! and `b` under the project directory; `--extensions .rs,toml` tracks only
//! those extensions (a leading dot is dropped). Other arguments are skipped.
//! A list flag must be followed by its list, and the list may not hold `--`.
use vstd::prelude::*;

use crate::coordinator::{WatchRs, build_dir};
use crate::text::{contains_text, text_equals, has_infix, split_spec, split_text, views, lemma_split_nonempty};

verus! {

/// The settings that the flags add.
pub struct ArgOptions {
    pub no_reload: bool,
    pub ignore: Seq<Seq<char>>,
    pub types: Seq<Seq<char>>,
}

/// Why the flags were refused.
#[derive(Clone, Debug, PartialEq)]
pub enum ArgError {
    /// The list flag was followed by this argument, which holds `--`.
    FlagInsteadOfList(String, String),
}

/// The paths that `--ignore value` adds for the project at `dir`.
pub open spec fn ignore_entries(dir: Seq<char>, value: Seq<char>) -> Seq<Seq<char>> {
    split_spec(value, ',').map_values(|p: Seq<char>| dir + "/"@ + p)
}

/// The extension that one item of `--extensions` names: the text after its
/// first dot (up to a second one), or the item itself when it has no dot.
pub open spec fn extension_entry(item: Seq<char>) -> Seq<char> {
    if has_infix(item, "."@) {
        split_spec(item, '.')[1]
    } else {
        item
    }
}

/// The extensions that `--extensions value` adds.
pub open spec fn extension_entries(value: Seq<char>) -> Seq<Seq<char>> {
    split_spec(value, ',').map_values(|p: Seq<char>| extension_entry(p))
}

/// Adds the settings `later`, read after those of `earlier`.
pub open spec fn combine(earlier: ArgOptions, later: Result<ArgOptions, (Seq<char>, Option<Seq<char>>)>) -> Result<
    ArgOptions,
    (Seq<char>, Option<Seq<char>>),
> {
    match later {
        Ok(o) => Ok(
            ArgOptions {
                no_reload: earlier.no_reload || o.no_reload,
                ignore: earlier.ignore + o.ignore,
                types: earlier.types + o.types,
            },
        ),
        Err(e) => Err(e),
    }
}

/// The settings that `args[i..]` give, or the first refused flag: with no
/// list after it (`None`), or with the list that holds `--`.
pub open spec fn parse_from(dir: Seq<char>, args: Seq<Seq<char>>, i: int) -> Result<
    ArgOptions,
    (Seq<char>, Option<Seq<char>>),
>
    decreases args.len() - i,
{
    let none = ArgOptions { no_reload: false, ignore: Seq::empty(), types: Seq::empty() };
    if i < 0 || i >= args.len() {
        Ok(none)
    } else if args[i] == "--no-reload"@ {
        combine(ArgOptions { no_reload: true, ..none }, parse_from(dir, args, i + 1))
    } else if args[i] == "--ignore"@ || args[i] == "--extensions"@ {
        if i + 1 >= args.len() {
            Err((args[i], None))
        } else if has_infix(args[i + 1], "--"@) {
            Err((args[i], Some(args[i + 1])))
        } else if args[i] == "--ignore"@ {
            combine(
                ArgOptions { ignore: ignore_entries(dir, args[i + 1]), ..none },
                parse_from(dir, args, i + 2),
            )
        } else {
            combine(
                ArgOptions { types: extension_entries(args[i + 1]), ..none },
                parse_from(dir, args, i + 2),
            )
        }
    } else {
        parse_from(dir, args, i + 1)
    }
}

/// The settings of `a` followed by those of `b`.
pub open spec fn join(a: ArgOptions, b: ArgOptions) -> ArgOptions {
    ArgOptions {
        no_reload: a.no_reload || b.no_reload,
        ignore: a.ignore + b.ignore,
        types: a.types + b.types,
    }
}

proof fn lemma_combine_join(
    a: ArgOptions,
    b: ArgOptions,
    rest: Result<ArgOptions, (Seq<char>, Option<Seq<char>>)>,
)
    ensures
        combine(a, combine(b, rest)) == combine(join(a, b), rest),
{
    if let Ok(o) = rest {
        assert(a.ignore + (b.ignore + o.ignore) =~= (a.ignore + b.ignore) + o.ignore);
        assert(a.types + (b.types + o.types) =~= (a.types + b.types) + o.types);
    }
}

/// Whether `a` is one of the flags that take a list.
pub open spec fn is_list_flag(a: Seq<char>) -> bool {
    a == "--ignore"@ || a == "--extensions"@
}

/// When the last argument is not a list flag, no list flag lacks its list.
pub proof fn lemma_trailing_flag_check(dir: Seq<char>, args: Seq<Seq<char>>, i: int)
    requires
        args.len() == 0 || !is_list_flag(args.last()),
    ensures
        !(parse_from(dir, args, i) matches Err((_, None))),
    decreases args.len() - i,
{
    if 0 <= i < args.len() {
        if args[i] == "--no-reload"@ {
            lemma_trailing_flag_check(dir, args, i + 1);
        } else if args[i] == "--ignore"@ || args[i] == "--extensions"@ {
            if i + 1 < args.len() && !has_infix(args[i + 1], "--"@) {
                lemma_trailing_flag_check(dir, args, i + 2);
            }
        } else {
            lemma_trailing_flag_check(dir, args, i + 1);
        }
    }
}

proof fn lemma_split_at_separator(s: Seq<char>, sep: char, i: int)
    requires
        0 <= i < s.len(),
        s[i] == sep,
    ensures
        split_spec(s, sep).len() >= 2,
    decreases s.len(),
{
    lemma_split_nonempty(s.drop_last(), sep);
    if i < s.len() - 1 {
        assert(s.drop_last()[i] == sep);
        lemma_split_at_separator(s.drop_last(), sep, i);
    }
}

/// The paths that `--ignore value` adds.
pub fn ignore_paths_from(dir: &String, value: &String) -> (r: Vec<String>)
    ensures
        views(r@) == ignore_entries(dir@, value@),
{
    let pieces = split_text(value.as_str(), ',');
    let ghost expected = ignore_entries(dir@, value@);
    let mut r: Vec<String> = Vec::new();
    for i in 0..pieces.len()
        invariant
            views(pieces@) == split_spec(value@, ','),
            expected == ignore_entries(dir@, value@),
            r@.len() == i,
            forall|j: int| 0 <= j < i ==> #[trigger] r@[j]@ == expected[j],
    {
        let path = dir.clone().concat("/").concat(pieces[i].as_str());
        assert(views(pieces@)[i as int] == pieces@[i as int]@);
        r.push(path);
    }
    assert(views(r@) =~= expected);
    r
}

/// The extension that one item of `--extensions` names.
pub fn extension_from(item: &String) -> (r: String)
    ensures
        r@ == extension_entry(item@),
{
    if contains_text(item.as_str(), ".") {
        proof {
            reveal_strlit(".");
            let i = choose|i: int| 0 <= i && i + "."@.len() <= item@.len() && #[trigger] item@.subrange(i, i + "."@.len()) == "."@;
            assert(item@.subrange(i, i + 1)[0] == item@[i]);
            lemma_split_at_separator(item@, '.', i);
        }
        let parts = split_text(item.as_str(), '.');
        assert(views(parts@)[1] == parts@[1]@);
        parts[1].clone()
    } else {
        item.clone()
    }
}

/// The extensions that `--extensions value` adds.
pub fn extensions_from(value: &String) -> (r: Vec<String>)
    ensures
        views(r@) == extension_entries(value@),
{
    let pieces = split_text(value.as_str(), ',');
    let ghost expected = extension_entries(value@);
    let mut r: Vec<String> = Vec::new();
    for i in 0..pieces.len()
        invariant
            views(pieces@) == split_spec(value@, ','),
            expected == extension_entries(value@),
            r@.len() == i,
            forall|j: int| 0 <= j < i ==> #[trigger] r@[j]@ == expected[j],
    {
        assert(views(pieces@)[i as int] == pieces@[i as int]@);
        r.push(extension_from(&pieces[i]));
    }
    assert(views(r@) =~= expected);
    r
}

impl WatchRs {
    /// Applies the flags in `args`. On success the added paths and
    /// extensions follow the existing ones, in the order of the flags; on
    /// failure nothing changes and the first refused flag is returned. A list
    /// flag must not be the last argument (see
    /// [`lemma_trailing_flag_check`] for a test that rules it out).
    pub fn process_args(&mut self, args: &Vec<String>) -> (r: Result<(), ArgError>)
        requires
            old(self).wf(),
            !(parse_from(old(self).dir_path@, views(args@), 0) matches Err((_, None))),
        ensures
            final(self).wf(),
            final(self).dir_path == old(self).dir_path,
            final(self).process_id == old(self).process_id,
            match parse_from(old(self).dir_path@, views(args@), 0) {
                Ok(o) => r is Ok && final(self).reload == (old(self).reload && !o.no_reload)
                    && views(final(self).ignore_paths@) == views(old(self).ignore_paths@)
                    + o.ignore && views(final(self).file_types@) == views(
                    old(self).file_types@,
                ) + o.types,
                Err((_, None)) => false,
                Err((flag, Some(value))) => (r matches Err(ArgError::FlagInsteadOfList(f, v))
                    && f@ == flag && v@ == value) && final(self).ignore_paths == old(
                    self,
                ).ignore_paths,
            },
    {
        let ghost dir = self.dir_path@;
        let ghost av = views(args@);
        let mut no_reload = false;
        let mut ignore: Vec<String> = Vec::new();
        let mut types: Vec<String> = Vec::new();
        let mut i: usize = 0;
        proof {
            reveal_strlit("--no-reload");
            reveal_strlit("--ignore");
            reveal_strlit("--extensions");
        }
        while i < args.len()
            invariant
                i <= args.len(),
                av == views(args@),
                dir == self.dir_path@,
                self.wf(),
                self.ignore_paths == old(self).ignore_paths,
                self.file_types == old(self).file_types,
                self.dir_path == old(self).dir_path,
                self.reload == old(self).reload,
                self.process_id == old(self).process_id,
                !(parse_from(dir, av, 0) matches Err((_, None))),
                parse_from(dir, av, 0) == combine(
                    ArgOptions { no_reload, ignore: views(ignore@), types: views(types@) },
                    parse_from(dir, av, i as int),
                ),
            decreases args.len() - i,
        {
            let ghost acc = ArgOptions { no_reload, ignore: views(ignore@), types: views(types@) };
            let ghost none = ArgOptions {
                no_reload: false,
                ignore: Seq::<Seq<char>>::empty(),
                types: Seq::<Seq<char>>::empty(),
            };
            assert(av[i as int] == args@[i as int]@);
            let arg = args[i].as_str();
            if text_equals(arg, "--no-reload") {
                proof {
                    lemma_combine_join(acc, ArgOptions { no_reload: true, ..none }, parse_from(dir, av, i + 1));
                    assert(join(acc, ArgOptions { no_reload: true, ..none }) == ArgOptions {
                        no_reload: true,
                        ..acc
                    }) by {
                        assert(acc.ignore + none.ignore =~= acc.ignore);
                        assert(acc.types + none.types =~= acc.types);
                    }
                }
                no_reload = true;
                i = i + 1;
            } else if text_equals(arg, "--ignore") || text_equals(arg, "--extensions") {
                assert(av[i as int] == "--ignore"@ || av[i as int] == "--extensions"@);
                assert(i + 1 < args.len());
                assert(av[i + 1] == args@[i + 1]@);
                let value = &args[i + 1];
                if contains_text(value.as_str(), "--") {
                    return Err(ArgError::FlagInsteadOfList(args[i].clone(), value.clone()));
                }
                if text_equals(arg, "--ignore") {
                    let mut added = ignore_paths_from(&self.dir_path, value);
                    proof {
                        let x = ArgOptions { ignore: ignore_entries(dir, value@), ..none };
                        lemma_combine_join(acc, x, parse_from(dir, av, i + 2));
                        assert(acc.types + none.types =~= acc.types);
                    }
                    ignore.append(&mut added);
                    assert(views(ignore@) =~= acc.ignore + ignore_entries(dir, value@));
                } else {
                    let mut added = extensions_from(value);
                    proof {
                        let x = ArgOptions { types: extension_entries(value@), ..none };
                        lemma_combine_join(acc, x, parse_from(dir, av, i + 2));
                        assert(acc.ignore + none.ignore =~= acc.ignore);
                    }
                    types.append(&mut added);
                    assert(views(types@) =~= acc.types + extension_entries(value@));
                }
                i = i + 2;
            } else {
                i = i + 1;
            }
        }
        let ghost before = views(self.ignore_paths@);
        self.reload = self.reload && !no_reload;
        self.ignore_paths.append(&mut ignore);
        proof {
            let k = choose|k: int| 0 <= k < before.len() && before[k] == build_dir(dir);
            assert(views(self.ignore_paths@)[k] == build_dir(dir));
            assert(i == args.len());
        }
        self.file_types.append(&mut types);
        Ok(())
    }
}

} // verus!

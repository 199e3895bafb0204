//! The bot's slash commands.

pub mod run;
pub mod system_load;

use vstd::prelude::*;
use crate::model::CommandOption;
use crate::model::OptionValue;
use crate::text::str_equal;

verus! {

/// The index of the option called `name` that counts: the last one of that
/// name, as when the options are collected into a map by name.
pub open spec fn option_index(opts: Seq<CommandOption>, name: Seq<char>) -> Option<int>
    decreases opts.len(),
{
    if opts.len() == 0 {
        None
    } else if opts.last().name@ == name {
        Some(opts.len() - 1)
    } else {
        option_index(opts.drop_last(), name)
    }
}

proof fn lemma_option_index_bounds(opts: Seq<CommandOption>, name: Seq<char>)
    ensures
        option_index(opts, name) matches Some(i) ==> 0 <= i < opts.len() && opts[i].name@ == name,
    decreases opts.len(),
{
    if opts.len() > 0 && opts.last().name@ != name {
        lemma_option_index_bounds(opts.drop_last(), name);
    }
}

/// The value of the option called `name`, when there is one: of several
/// options of that name the last one counts.
pub fn option_value<'a>(options: &'a Vec<CommandOption>, name: &str) -> (r: Option<
    &'a OptionValue,
>)
    ensures
        match option_index(options@, name@) {
            Some(i) => r == Some(&options@[i].value),
            None => r is None,
        },
{
    let mut i = options.len();
    assert(options@.take(i as int) =~= options@);
    while i > 0
        invariant
            i <= options.len(),
            option_index(options@, name@) == option_index(options@.take(i as int), name@),
        decreases i,
    {
        let ghost t = options@.take(i as int);
        proof {
            lemma_option_index_bounds(t, name@);
        }
        if str_equal(options[i - 1].name.as_str(), name) {
            return Some(&options[i - 1].value);
        }
        assert(t.drop_last() =~= options@.take(i - 1));
        i = i - 1;
    }
    assert(options@.take(0) =~= Seq::<CommandOption>::empty());
    None
}

/// The option that counts for a name is the last one of that name: it
/// carries the name and no later option does; when there is none, no option
/// carries the name.
pub proof fn lemma_last_option_counts(opts: Seq<CommandOption>, name: Seq<char>)
    ensures
        option_index(opts, name) matches Some(i) ==> 0 <= i < opts.len() && opts[i].name@ == name
            && forall|j: int| i < j < opts.len() ==> (#[trigger] opts[j]).name@ != name,
        option_index(opts, name) is None ==> forall|j: int|
            0 <= j < opts.len() ==> (#[trigger] opts[j]).name@ != name,
    decreases opts.len(),
{
    lemma_option_index_bounds(opts, name);
    if opts.len() > 0 {
        let t = opts.drop_last();
        lemma_last_option_counts(t, name);
        if opts.last().name@ != name {
            assert(option_index(opts, name) == option_index(t, name));
            assert forall|j: int| 0 <= j < opts.len() && !(j < t.len()) implies (#[trigger] opts[j]).name@ != name by {
                assert(opts[j] == opts.last());
            }
            assert forall|j: int| 0 <= j < t.len() implies (#[trigger] opts[j]) == t[j] by {}
            if option_index(opts, name) is None {
                assert forall|j: int| 0 <= j < opts.len() implies (#[trigger] opts[j]).name@ != name by {
                    if j < t.len() {
                        assert(opts[j] == t[j]);
                    } else {
                        assert(opts[j] == opts.last());
                    }
                }
            } else {
                let i = option_index(opts, name)->0;
                assert forall|j: int| i < j < opts.len() implies (#[trigger] opts[j]).name@ != name by {
                    if j < t.len() {
                        assert(opts[j] == t[j]);
                    } else {
                        assert(opts[j] == opts.last());
                    }
                }
            }
        }
    }
}

} // verus!

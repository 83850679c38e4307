//! Prompts: sections render in order, each as it is.

use vstd::prelude::*;

use crate::prompt::{self, SectionModel};

verus! {

/// A section renders as its text and an empty line, under a heading where it has a name. The text
/// comes out as it is.
pub proof fn sections_render_as_they_are(name: Seq<char>, content: Seq<char>)
    ensures
        prompt::rendered(seq![SectionModel { name: None, content }]) == content + seq!['\n', '\n'],
        prompt::rendered(seq![SectionModel { name: Some(name), content }]) == seq!['#', '#', ' ']
            + name + seq!['\n', '\n'] + content + seq!['\n', '\n'],
        prompt::rendered(Seq::empty()) == Seq::<char>::empty(),
{
    reveal_with_fuel(prompt::rendered, 2);
    reveal_strlit("## ");
    reveal_strlit("\n\n");
    let plain = SectionModel { name: None, content };
    let named = SectionModel { name: Some(name), content };
    assert(seq![plain].drop_last() =~= Seq::empty());
    assert(seq![named].drop_last() =~= Seq::empty());
    assert("\n\n"@ =~= seq!['\n', '\n']);
    assert("## "@ =~= seq!['#', '#', ' ']);
    assert(prompt::rendered(seq![plain]) =~= content + seq!['\n', '\n']);
    assert(prompt::rendered(seq![named]) =~= seq!['#', '#', ' '] + name + seq!['\n', '\n'] + content
        + seq!['\n', '\n']);
}

/// A prompt renders as its first sections and after them the rest.
pub proof fn prompts_render_in_order(a: Seq<SectionModel>, b: Seq<SectionModel>)
    ensures
        prompt::rendered(a + b) == prompt::rendered(a) + prompt::rendered(b),
{
    prompt::rendering_splits(a, b);
}

/// The first section with a name is the only one of that kind: the one before which no section has
/// the name.
pub proof fn first_sections_are_unique(
    sections: Seq<SectionModel>,
    name: Seq<char>,
    i: int,
    k: int,
)
    requires
        prompt::first_named(sections, name, i),
    ensures
        0 <= i < sections.len() && sections[i].name == Some(name),
        0 <= k < sections.len() && sections[k].name == Some(name) ==> i <= k,
        prompt::first_named(sections, name, k) ==> k == i,
{
    if 0 <= k < i {
        assert(sections[k].name != Some(name));
    }
    if prompt::first_named(sections, name, k) && i < k {
        assert(sections[i].name != Some(name));
    }
}

} // verus!

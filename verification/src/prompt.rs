//! System prompts composed of sections.

use vstd::prelude::*;
use vstd::string::*;

use crate::text::{self, same_text};
use crate::tokenizer::Tokenizer;

verus! {

/// An ordered list of sections.
#[derive(Debug, Clone)]
pub struct Prompt {
    sections: Vec<PromptSection>,
}

/// One section of a [`Prompt`]: a text under an optional heading.
#[derive(Debug, Clone)]
pub struct PromptSection {
    name: Option<String>,
    content: String,
}

/// Collects sections for a [`Prompt`].
pub struct PromptBuilder {
    sections: Vec<PromptSection>,
}

/// Why a prompt cannot be loaded.
#[derive(Debug, Clone, PartialEq, Eq)]
pub enum PromptError {
    /// The file cannot be read.
    LoadFile { path: String, source: String },
}

impl PromptError {
    /// The error as text.
    pub fn text(&self) -> (r: String)
        ensures
            r@ == (match *self {
                PromptError::LoadFile { path, source } => "failed to read prompt file "@ + path@
                    + ": "@ + source@,
            }),
    {
        match self {
            PromptError::LoadFile { path, source } => {
                let mut out = "failed to read prompt file ".to_owned();
                out.append(path.as_str());
                out.append(": ");
                out.append(source.as_str());
                out
            },
        }
    }
}

/// What a [`PromptSection`] says.
pub struct SectionModel {
    pub name: Option<Seq<char>>,
    pub content: Seq<char>,
}

impl View for PromptSection {
    type V = SectionModel;

    closed spec fn view(&self) -> SectionModel {
        SectionModel { name: text::opt_text(self.name), content: self.content@ }
    }
}

/// What a list of sections says.
pub open spec fn section_models(sections: Seq<PromptSection>) -> Seq<SectionModel> {
    sections.map_values(|s: PromptSection| s@)
}

impl View for Prompt {
    type V = Seq<SectionModel>;

    closed spec fn view(&self) -> Seq<SectionModel> {
        section_models(self.sections@)
    }
}

impl View for PromptBuilder {
    type V = Seq<SectionModel>;

    closed spec fn view(&self) -> Seq<SectionModel> {
        section_models(self.sections@)
    }
}

/// A section as text: a heading where there is a name, the content, an empty line.
pub open spec fn rendered_section(section: SectionModel) -> Seq<char> {
    (match section.name {
        Some(name) => "## "@ + name + "\n\n"@,
        None => Seq::empty(),
    }) + section.content + "\n\n"@
}

/// Sections as text, one after the other.
pub open spec fn rendered(sections: Seq<SectionModel>) -> Seq<char>
    decreases sections.len(),
{
    if sections.len() == 0 {
        Seq::empty()
    } else {
        rendered(sections.drop_last()) + rendered_section(sections.last())
    }
}

/// Whether the section at `i` is the first one named `name`.
pub open spec fn first_named(sections: Seq<SectionModel>, name: Seq<char>, i: int) -> bool {
    &&& 0 <= i < sections.len()
    &&& sections[i].name == Some(name)
    &&& forall|k: int| 0 <= k < i ==> (#[trigger] sections[k]).name != Some(name)
}

impl PromptSection {
    /// A section without a heading.
    pub fn new(content: &str) -> (r: Self)
        ensures
            r@ == (SectionModel { name: None, content: content@ }),
    {
        PromptSection { name: None, content: content.to_owned() }
    }

    /// A section without a heading, out of a file that was read; where that failed, with the reason.
    pub fn from_file(path: &str, read: Result<String, String>) -> (r: Result<Self, PromptError>)
        ensures
            match read {
                Ok(content) => r matches Ok(section) && section@ == (SectionModel {
                    name: None,
                    content: content@,
                }),
                Err(reason) => r matches Err(PromptError::LoadFile { path: p, source }) && p@
                    == path@ && source == reason,
            },
    {
        match read {
            Ok(content) => Ok(PromptSection { name: None, content }),
            Err(source) => Err(PromptError::LoadFile { path: path.to_owned(), source }),
        }
    }

    /// A section under a heading.
    pub fn with_name(name: &str, content: &str) -> (r: Self)
        ensures
            r@ == (SectionModel { name: Some(name@), content: content@ }),
    {
        PromptSection { name: Some(name.to_owned()), content: content.to_owned() }
    }

    /// The section's name.
    pub fn name(&self) -> (r: Option<&str>)
        ensures
            self@.name == (match r {
                Some(s) => Some(s@),
                None => None,
            }),
    {
        match &self.name {
            Some(s) => Some(s.as_str()),
            None => None,
        }
    }

    /// The section's text without a heading.
    pub fn content(&self) -> (r: &str)
        ensures
            r@ == self@.content,
    {
        self.content.as_str()
    }

    /// The token count of the section's text without a heading.
    pub fn token_count(&self, tokenizer: &dyn Tokenizer) -> (r: usize)
        ensures
            tokenizer.may_count(self@.content, r),
    {
        tokenizer.count_text(self.content.as_str())
    }
}

impl Default for Prompt {
    fn default() -> (r: Self)
        ensures
            r@ == Seq::<SectionModel>::empty(),
    {
        Prompt::new()
    }
}

impl Prompt {
    /// Begins to assemble a prompt.
    pub fn builder() -> (r: PromptBuilder)
        ensures
            r@ == Seq::<SectionModel>::empty(),
    {
        PromptBuilder::new()
    }

    /// A prompt without sections.
    pub fn new() -> (r: Self)
        ensures
            r@ == Seq::<SectionModel>::empty(),
    {
        let r = Prompt { sections: Vec::new() };
        assert(r@ =~= Seq::<SectionModel>::empty());
        r
    }

    /// The sections in order.
    pub fn sections(&self) -> (r: &Vec<PromptSection>)
        ensures
            section_models(r@) == self@,
    {
        &self.sections
    }

    /// Appends a section.
    pub fn add_section(&mut self, section: PromptSection)
        ensures
            final(self)@ == old(self)@.push(section@),
    {
        let ghost before = self@;
        self.sections.push(section);
        assert(self@ =~= before.push(section@));
    }

    /// Removes the first section with a name; without one, nothing changes.
    pub fn remove_section(&mut self, name: &str)
        ensures
            forall|i: int|
                first_named(old(self)@, name@, i) ==> final(self)@ == #[trigger] old(self)@.remove(
                    i,
                ),
            (forall|i: int| !first_named(old(self)@, name@, i)) ==> final(self)@ == old(self)@,
    {
        let ghost before = self@;
        let mut i: usize = 0;
        while i < self.sections.len()
            invariant
                i <= self.sections@.len(),
                self@ == before,
                before == old(self)@,
                before == section_models(self.sections@),
                forall|k: int| 0 <= k < i ==> (#[trigger] before[k]).name != Some(name@),
            decreases self.sections.len() - i,
        {
            assert(before[i as int] == self.sections@[i as int]@);
            let matches = match self.sections[i].name() {
                Some(s) => same_text(s, name),
                None => false,
            };
            if matches {
                assert(first_named(before, name@, i as int));
                self.sections.remove(i);
                assert(self@ =~= before.remove(i as int));
                assert forall|j: int| first_named(before, name@, j) implies j == i by {
                    if j < i {
                        assert(before[j].name != Some(name@));
                    }
                }
                return;
            }
            i = i + 1;
        }
    }

    /// All sections as one text.
    pub fn render(&self) -> (r: String)
        ensures
            r@ == rendered(self@),
    {
        let mut out = String::new();
        let mut i: usize = 0;
        let ghost all = self@;
        while i < self.sections.len()
            invariant
                i <= self.sections@.len(),
                all == section_models(self.sections@),
                out@ == rendered(all.take(i as int)),
            decreases self.sections.len() - i,
        {
            let ghost start = out@;
            let ghost section = all[i as int];
            assert(all.take(i as int + 1).drop_last() =~= all.take(i as int));
            assert(all.take(i as int + 1).last() == section);
            if let Some(name) = &self.sections[i].name {
                out.append("## ");
                out.append(name.as_str());
                out.append("\n\n");
            }
            out.append(self.sections[i].content.as_str());
            out.append("\n\n");
            assert(out@ =~= start + rendered_section(section));
            i = i + 1;
        }
        assert(all.take(i as int) =~= all);
        out
    }

    /// The text the prompt displays as, which is what it renders to.
    pub fn text(&self) -> (r: String)
        ensures
            r@ == rendered(self@),
    {
        self.render()
    }

    /// The token count of the rendered prompt.
    pub fn token_count(&self, tokenizer: &dyn Tokenizer) -> (r: usize)
        ensures
            tokenizer.may_count(rendered(self@), r),
    {
        let text = self.render();
        tokenizer.count_text(text.as_str())
    }
}

impl From<&str> for Prompt {
    fn from(value: &str) -> (r: Self)
        ensures
            r@ == seq![SectionModel { name: None, content: value@ }],
    {
        let mut r = Prompt::new();
        r.add_section(PromptSection::new(value));
        assert(r@ =~= seq![SectionModel { name: None, content: value@ }]);
        r
    }
}

impl vstd::std_specs::convert::FromSpecImpl<&str> for Prompt {
    open spec fn obeys_from_spec() -> bool {
        false
    }

    open spec fn from_spec(value: &str) -> Self {
        arbitrary()
    }
}

impl Default for PromptBuilder {
    fn default() -> (r: Self)
        ensures
            r@ == Seq::<SectionModel>::empty(),
    {
        PromptBuilder::new()
    }
}

impl PromptBuilder {
    /// A builder without sections.
    pub fn new() -> (r: Self)
        ensures
            r@ == Seq::<SectionModel>::empty(),
    {
        let r = PromptBuilder { sections: Vec::new() };
        assert(r@ =~= Seq::<SectionModel>::empty());
        r
    }

    /// Appends a section.
    pub fn section(self, section: PromptSection) -> (r: Self)
        ensures
            r@ == self@.push(section@),
    {
        let ghost before = self@;
        let mut sections = self.sections;
        sections.push(section);
        let r = PromptBuilder { sections };
        assert(r@ =~= before.push(section@));
        r
    }

    /// The finished prompt.
    pub fn build(self) -> (r: Prompt)
        ensures
            r@ == self@,
    {
        Prompt { sections: self.sections }
    }
}

/// Rendering a prompt whose sections come in two parts renders the parts one after the other.
pub proof fn rendering_splits(a: Seq<SectionModel>, b: Seq<SectionModel>)
    ensures
        rendered(a + b) == rendered(a) + rendered(b),
    decreases b.len(),
{
    if b.len() == 0 {
        assert(a + b =~= a);
        assert(rendered(a) + rendered(b) =~= rendered(a));
    } else {
        rendering_splits(a, b.drop_last());
        assert((a + b).drop_last() =~= a + b.drop_last());
        assert((a + b).last() == b.last());
        assert(rendered(a) + (rendered(b.drop_last()) + rendered_section(b.last())) =~= (rendered(a)
            + rendered(b.drop_last())) + rendered_section(b.last()));
    }
}

} // verus!

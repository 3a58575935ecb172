//! Tab variants: the kinds of content a pane can hold, each with its
//! kind-specific state, a title, and a closeability flag. Rendering of tab
//! content is an external capability and lives outside this crate.

use vstd::prelude::*;

verus! {

/// The declared tab kinds. Adding a variant here extends every exhaustive
/// match over tab content, so a new kind cannot be forgotten silently.
#[derive(Clone, Copy, Debug, PartialEq, Eq, Structural)]
pub enum TabKind {
    BomImporter,
    PlaceholderB,
}

/// A BOM-import tab. The live import widget it drives is a runtime handle
/// owned by the shell and is not part of the persisted or verified state;
/// only the instance tag is.
#[derive(Clone, Copy, Debug, PartialEq, Eq)]
pub struct TabBomImporter {
    /// Disambiguates several importer tabs. A tagged importer is pinned:
    /// it cannot be closed. The untagged importer is closeable.
    pub bom_instance: Option<char>,
}

impl TabBomImporter {
    /// The title as a sequence of characters: `BOM {tag}` when tagged,
    /// plain `BOM` otherwise.
    pub open spec fn title_spec(self) -> Seq<char> {
        match self.bom_instance {
            Option::Some(c) => seq!['B', 'O', 'M', ' ', c],
            Option::None => seq!['B', 'O', 'M'],
        }
    }

    /// A tagged importer refuses to close; the untagged one may close.
    pub open spec fn closeable_spec(self) -> bool {
        self.bom_instance is None
    }

    pub fn new(bom_instance: char) -> (r: Self)
        ensures
            r.bom_instance == Some(bom_instance),
            r.title_spec() == seq!['B', 'O', 'M', ' ', bom_instance],
            !r.closeable_spec(),
    {
        TabBomImporter { bom_instance: Some(bom_instance) }
    }

    pub fn title(&self) -> (r: String)
        ensures
            r@ == self.title_spec(),
    {
        let mut s = String::from_str("BOM");
        proof {
            reveal_strlit("BOM");
        }
        match self.bom_instance {
            Some(c) => {
                push_char(&mut s, ' ');
                push_char(&mut s, c);
                proof {
                    assert(s@ =~= self.title_spec());
                }
            },
            None => {
                proof {
                    assert(s@ =~= self.title_spec());
                }
            },
        }
        s
    }

    pub fn is_closeable(&self) -> (r: bool)
        ensures
            r == self.closeable_spec(),
    {
        self.bom_instance.is_none()
    }
}

impl Default for TabBomImporter {
    /// The untagged importer: title `BOM`, closeable.
    fn default() -> (r: Self)
        ensures
            r.bom_instance is None,
            r.closeable_spec(),
    {
        TabBomImporter { bom_instance: None }
    }
}

/// Relies on String::push from std: appends exactly the given character.
#[verifier::external_body]
fn push_char(s: &mut String, c: char)
    ensures
        final(s)@ == old(s)@ + seq![c],
{
    s.push(c);
}

/// Kind-specific pane content, one variant per declared tab kind.
#[derive(Clone, Copy, Debug, PartialEq, Eq)]
pub enum TabContent {
    BomImporter(TabBomImporter),
    PlaceholderB,
}

/// One pane's content: its kind-specific state plus the creation ordinal
/// that disambiguates same-kind tabs.
#[derive(Clone, Copy, Debug, PartialEq, Eq)]
pub struct Tab {
    /// Monotonic counter assigned at creation time, never reassigned.
    pub ordinal: u64,
    pub content: TabContent,
}

impl Tab {
    /// The variant tag of this tab's content.
    pub open spec fn kind_spec(self) -> TabKind {
        match self.content {
            TabContent::BomImporter(_) => TabKind::BomImporter,
            TabContent::PlaceholderB => TabKind::PlaceholderB,
        }
    }

    pub open spec fn title_spec(self) -> Seq<char> {
        match self.content {
            TabContent::BomImporter(t) => t.title_spec(),
            TabContent::PlaceholderB => seq!['T', 'a', 'b', ' ', 'B'],
        }
    }

    pub open spec fn closeable_spec(self) -> bool {
        match self.content {
            TabContent::BomImporter(t) => t.closeable_spec(),
            TabContent::PlaceholderB => true,
        }
    }

    /// Construct a fresh tab of the given kind, tagged with its creation
    /// ordinal. New importer tabs start untagged.
    pub fn from_kind(kind: TabKind, ordinal: u64) -> (r: Tab)
        ensures
            r.ordinal == ordinal,
            r.kind_spec() == kind,
            kind == TabKind::BomImporter ==> r.content == TabContent::BomImporter(
                TabBomImporter { bom_instance: None },
            ),
            kind == TabKind::PlaceholderB ==> r.content == TabContent::PlaceholderB,
    {
        match kind {
            TabKind::BomImporter => Tab {
                ordinal,
                content: TabContent::BomImporter(TabBomImporter { bom_instance: None }),
            },
            TabKind::PlaceholderB => Tab { ordinal, content: TabContent::PlaceholderB },
        }
    }

    pub fn kind(&self) -> (r: TabKind)
        ensures
            r == self.kind_spec(),
    {
        match self.content {
            TabContent::BomImporter(_) => TabKind::BomImporter,
            TabContent::PlaceholderB => TabKind::PlaceholderB,
        }
    }

    pub fn title(&self) -> (r: String)
        ensures
            r@ == self.title_spec(),
    {
        match &self.content {
            TabContent::BomImporter(t) => t.title(),
            TabContent::PlaceholderB => {
                let s = String::from_str("Tab B");
                proof {
                    reveal_strlit("Tab B");
                    assert(s@ =~= self.title_spec());
                }
                s
            },
        }
    }

    pub fn is_closeable(&self) -> (r: bool)
        ensures
            r == self.closeable_spec(),
    {
        match &self.content {
            TabContent::BomImporter(t) => t.is_closeable(),
            TabContent::PlaceholderB => true,
        }
    }
}

} // verus!

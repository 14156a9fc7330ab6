//! The properties of the view, by name.

use vstd::prelude::*;

use crate::glyphs::Real;
use crate::view::title;

verus! {

/// A property of the view.
#[derive(Clone, Copy, Debug, PartialEq, Eq, Structural)]
pub enum Property {
    Title,
    Closeable,
    Preview,
    IsMenuVisible,
    UnitsPerEm,
    XHeight,
    Ascender,
    Descender,
    CapHeight,
    LockGuidelines,
    ShowGlyphGuidelines,
    ShowProjectGuidelines,
    ShowMetricsGuidelines,
    ActiveTool,
    PanningTool,
    Menubar,
    Lock,
    Snap,
}

/// A value of a property. A tool is given by the number under which it is kept.
#[derive(Clone, Debug)]
pub enum PropertyValue {
    Text(String),
    Flag(bool),
    Number(Real),
    Tool(Option<u64>),
    Menubar,
    Bits(u32),
}

/// An end of a range of double-precision numbers.
#[derive(Clone, Copy, Debug, PartialEq, Eq, Structural)]
pub enum Bound {
    Lowest,
    At(i32),
    Highest,
}

/// What values a property takes, and which one it has at first.
#[derive(Clone, Copy, Debug, PartialEq, Eq, Structural)]
pub enum PropertyKind {
    /// A text. `default_text` says how it reads at first.
    Text,
    Flag { default: bool },
    Number { minimum: Bound, maximum: Bound, default: i32 },
    Tool,
    Menubar,
    Bits { minimum: u32, maximum: u32, default: u32 },
}

impl PropertyKind {
    /// How a text reads at first: it is the title, which is "edit glyph" while
    /// there is no glyph.
    pub fn default_text(self) -> (text: Option<&'static str>)
        ensures
            text is Some <==> self is Text,
            text matches Some(words) ==> words@ == "edit glyph"@ && words@ == title(None),
    {
        match self {
            PropertyKind::Text => Some("edit glyph"),
            _ => None,
        }
    }
}

/// A property, what it takes, and whether it can be set. Every property can be
/// read.
#[derive(Clone, Copy, Debug, PartialEq, Eq, Structural)]
pub struct PropertySpec {
    pub property: Property,
    pub kind: PropertyKind,
    pub writable: bool,
}

/// All properties, in the order in which they are installed.
pub open spec fn all_properties() -> Seq<Property> {
    seq![
        Property::Title,
        Property::Closeable,
        Property::Preview,
        Property::IsMenuVisible,
        Property::UnitsPerEm,
        Property::XHeight,
        Property::Ascender,
        Property::Descender,
        Property::CapHeight,
        Property::LockGuidelines,
        Property::ShowGlyphGuidelines,
        Property::ShowProjectGuidelines,
        Property::ShowMetricsGuidelines,
        Property::ActiveTool,
        Property::PanningTool,
        Property::Menubar,
        Property::Lock,
        Property::Snap,
    ]
}

impl Property {
    /// The name of the property.
    pub open spec fn spec_name(self) -> Seq<char> {
        match self {
            Property::Title => "title"@,
            Property::Closeable => "closeable"@,
            Property::Preview => "preview"@,
            Property::IsMenuVisible => "is-menu-visible"@,
            Property::UnitsPerEm => "units-per-em"@,
            Property::XHeight => "x-height"@,
            Property::Ascender => "ascender"@,
            Property::Descender => "descender"@,
            Property::CapHeight => "cap-height"@,
            Property::LockGuidelines => "lock-guidelines"@,
            Property::ShowGlyphGuidelines => "show-glyph-guidelines"@,
            Property::ShowProjectGuidelines => "show-project-guidelines"@,
            Property::ShowMetricsGuidelines => "show-metrics-guidelines"@,
            Property::ActiveTool => "active-tool"@,
            Property::PanningTool => "panning-tool"@,
            Property::Menubar => "menubar"@,
            Property::Lock => "lock"@,
            Property::Snap => "snap"@,
        }
    }

    /// The name of the property.
    pub fn name(self) -> (name: &'static str)
        ensures
            name@ == self.spec_name(),
            self is Title ==> name@ == "title"@,
            self is Closeable ==> name@ == "closeable"@,
            self is Preview ==> name@ == "preview"@,
            self is IsMenuVisible ==> name@ == "is-menu-visible"@,
            self is UnitsPerEm ==> name@ == "units-per-em"@,
            self is XHeight ==> name@ == "x-height"@,
            self is Ascender ==> name@ == "ascender"@,
            self is Descender ==> name@ == "descender"@,
            self is CapHeight ==> name@ == "cap-height"@,
            self is LockGuidelines ==> name@ == "lock-guidelines"@,
            self is ShowGlyphGuidelines ==> name@ == "show-glyph-guidelines"@,
            self is ShowProjectGuidelines ==> name@ == "show-project-guidelines"@,
            self is ShowMetricsGuidelines ==> name@ == "show-metrics-guidelines"@,
            self is ActiveTool ==> name@ == "active-tool"@,
            self is PanningTool ==> name@ == "panning-tool"@,
            self is Menubar ==> name@ == "menubar"@,
            self is Lock ==> name@ == "lock"@,
            self is Snap ==> name@ == "snap"@,
    {
        match self {
            Property::Title => "title",
            Property::Closeable => "closeable",
            Property::Preview => "preview",
            Property::IsMenuVisible => "is-menu-visible",
            Property::UnitsPerEm => "units-per-em",
            Property::XHeight => "x-height",
            Property::Ascender => "ascender",
            Property::Descender => "descender",
            Property::CapHeight => "cap-height",
            Property::LockGuidelines => "lock-guidelines",
            Property::ShowGlyphGuidelines => "show-glyph-guidelines",
            Property::ShowProjectGuidelines => "show-project-guidelines",
            Property::ShowMetricsGuidelines => "show-metrics-guidelines",
            Property::ActiveTool => "active-tool",
            Property::PanningTool => "panning-tool",
            Property::Menubar => "menubar",
            Property::Lock => "lock",
            Property::Snap => "snap",
        }
    }

    /// What is said of the property: for most of them, their name.
    pub open spec fn spec_blurb(self) -> Seq<char> {
        match self {
            Property::Lock => "Lock transformation movement to specific axes."@,
            Property::Snap => "Snap transformation movement to specific references."@,
            _ => self.spec_name(),
        }
    }

    /// What is said of the property: for most of them, their name.
    pub fn blurb(self) -> (blurb: &'static str)
        ensures
            blurb@ == self.spec_blurb(),
            self is Lock ==> blurb@ == "Lock transformation movement to specific axes."@,
            self is Snap ==> blurb@ == "Snap transformation movement to specific references."@,
            self is Title ==> blurb@ == "title"@,
            self is Closeable ==> blurb@ == "closeable"@,
            self is Preview ==> blurb@ == "preview"@,
            self is IsMenuVisible ==> blurb@ == "is-menu-visible"@,
            self is UnitsPerEm ==> blurb@ == "units-per-em"@,
            self is XHeight ==> blurb@ == "x-height"@,
            self is Ascender ==> blurb@ == "ascender"@,
            self is Descender ==> blurb@ == "descender"@,
            self is CapHeight ==> blurb@ == "cap-height"@,
            self is LockGuidelines ==> blurb@ == "lock-guidelines"@,
            self is ShowGlyphGuidelines ==> blurb@ == "show-glyph-guidelines"@,
            self is ShowProjectGuidelines ==> blurb@ == "show-project-guidelines"@,
            self is ShowMetricsGuidelines ==> blurb@ == "show-metrics-guidelines"@,
            self is ActiveTool ==> blurb@ == "active-tool"@,
            self is PanningTool ==> blurb@ == "panning-tool"@,
            self is Menubar ==> blurb@ == "menubar"@,
    {
        match self {
            Property::Lock => "Lock transformation movement to specific axes.",
            Property::Snap => "Snap transformation movement to specific references.",
            _ => self.name(),
        }
    }

    /// What the property takes.
    pub open spec fn spec_kind(self) -> PropertyKind {
        match self {
            Property::Title => PropertyKind::Text,
            Property::Preview | Property::LockGuidelines => PropertyKind::Flag { default: false },
            Property::Closeable
            | Property::IsMenuVisible
            | Property::ShowGlyphGuidelines
            | Property::ShowProjectGuidelines
            | Property::ShowMetricsGuidelines => PropertyKind::Flag { default: true },
            Property::UnitsPerEm | Property::XHeight => PropertyKind::Number {
                minimum: Bound::At(1),
                maximum: Bound::Highest,
                default: 1000,
            },
            Property::Ascender => PropertyKind::Number {
                minimum: Bound::Lowest,
                maximum: Bound::Highest,
                default: 700,
            },
            Property::Descender => PropertyKind::Number {
                minimum: Bound::Lowest,
                maximum: Bound::Highest,
                default: (-200) as i32,
            },
            Property::CapHeight => PropertyKind::Number {
                minimum: Bound::Lowest,
                maximum: Bound::Highest,
                default: 650,
            },
            Property::ActiveTool | Property::PanningTool => PropertyKind::Tool,
            Property::Menubar => PropertyKind::Menubar,
            Property::Lock | Property::Snap => PropertyKind::Bits {
                minimum: 0,
                maximum: u32::MAX,
                default: 0,
            },
        }
    }

    /// Whether the property can be set: all but the title and the two flags that
    /// never change.
    pub open spec fn spec_writable(self) -> bool {
        !(self is Title || self is Closeable || self is IsMenuVisible)
    }

    /// The property with what it takes.
    pub open spec fn described(self) -> PropertySpec {
        PropertySpec { property: self, kind: self.spec_kind(), writable: self.spec_writable() }
    }

    fn describe(self) -> (spec: PropertySpec)
        ensures
            spec == self.described(),
    {
        let kind = match self {
            Property::Title => PropertyKind::Text,
            Property::Preview | Property::LockGuidelines => PropertyKind::Flag { default: false },
            Property::Closeable
            | Property::IsMenuVisible
            | Property::ShowGlyphGuidelines
            | Property::ShowProjectGuidelines
            | Property::ShowMetricsGuidelines => PropertyKind::Flag { default: true },
            Property::UnitsPerEm | Property::XHeight => PropertyKind::Number {
                minimum: Bound::At(1),
                maximum: Bound::Highest,
                default: 1000,
            },
            Property::Ascender => PropertyKind::Number {
                minimum: Bound::Lowest,
                maximum: Bound::Highest,
                default: 700,
            },
            Property::Descender => PropertyKind::Number {
                minimum: Bound::Lowest,
                maximum: Bound::Highest,
                default: -200,
            },
            Property::CapHeight => PropertyKind::Number {
                minimum: Bound::Lowest,
                maximum: Bound::Highest,
                default: 650,
            },
            Property::ActiveTool | Property::PanningTool => PropertyKind::Tool,
            Property::Menubar => PropertyKind::Menubar,
            Property::Lock | Property::Snap => PropertyKind::Bits {
                minimum: 0,
                maximum: u32::MAX,
                default: 0,
            },
        };
        let writable = match self {
            Property::Title | Property::Closeable | Property::IsMenuVisible => false,
            _ => true,
        };
        PropertySpec { property: self, kind, writable }
    }

    fn all() -> (all: Vec<Property>)
        ensures
            all@ == all_properties(),
    {
        let all = vec![
            Property::Title,
            Property::Closeable,
            Property::Preview,
            Property::IsMenuVisible,
            Property::UnitsPerEm,
            Property::XHeight,
            Property::Ascender,
            Property::Descender,
            Property::CapHeight,
            Property::LockGuidelines,
            Property::ShowGlyphGuidelines,
            Property::ShowProjectGuidelines,
            Property::ShowMetricsGuidelines,
            Property::ActiveTool,
            Property::PanningTool,
            Property::Menubar,
            Property::Lock,
            Property::Snap,
        ];
        assert(all@ =~= all_properties());
        all
    }

    /// The property of the given name, if there is one.
    pub fn from_name(name: &str) -> (property: Option<Property>)
        ensures
            property matches Some(p) ==> p.spec_name() == name@,
            property is None ==> forall|p: Property| (#[trigger] p.spec_name()) != name@,
            name@ == "title"@ <==> property == Some(Property::Title),
            name@ == "closeable"@ <==> property == Some(Property::Closeable),
            name@ == "preview"@ <==> property == Some(Property::Preview),
            name@ == "is-menu-visible"@ <==> property == Some(Property::IsMenuVisible),
            name@ == "units-per-em"@ <==> property == Some(Property::UnitsPerEm),
            name@ == "x-height"@ <==> property == Some(Property::XHeight),
            name@ == "ascender"@ <==> property == Some(Property::Ascender),
            name@ == "descender"@ <==> property == Some(Property::Descender),
            name@ == "cap-height"@ <==> property == Some(Property::CapHeight),
            name@ == "lock-guidelines"@ <==> property == Some(Property::LockGuidelines),
            name@ == "show-glyph-guidelines"@ <==> property == Some(Property::ShowGlyphGuidelines),
            name@ == "show-project-guidelines"@ <==> property
                == Some(Property::ShowProjectGuidelines),
            name@ == "show-metrics-guidelines"@ <==> property
                == Some(Property::ShowMetricsGuidelines),
            name@ == "active-tool"@ <==> property == Some(Property::ActiveTool),
            name@ == "panning-tool"@ <==> property == Some(Property::PanningTool),
            name@ == "menubar"@ <==> property == Some(Property::Menubar),
            name@ == "lock"@ <==> property == Some(Property::Lock),
            name@ == "snap"@ <==> property == Some(Property::Snap),
    {
        let wanted = name.to_owned();
        let all = Property::all();
        let mut i: usize = 0;
        while i < all.len()
            invariant
                i <= all@.len(),
                wanted@ == name@,
                forall|j: int| 0 <= j < i ==> (#[trigger] all@[j]).spec_name() != name@,
            decreases all@.len() - i,
        {
            if all[i].name().to_owned() == wanted {
                proof {
                    law_names_tell_apart(all@[i as int], name@);
                }
                return Some(all[i]);
            }
            i += 1;
        }
        assert forall|p: Property| (#[trigger] p.spec_name()) != name@ by {
            lemma_all_properties(p);
            let j = all@.index_of(p);
            assert(all@[j].spec_name() != name@);
        }
        proof {
            assert(Property::Title.spec_name() != name@);
            assert(Property::Closeable.spec_name() != name@);
            assert(Property::Preview.spec_name() != name@);
            assert(Property::IsMenuVisible.spec_name() != name@);
            assert(Property::UnitsPerEm.spec_name() != name@);
            assert(Property::XHeight.spec_name() != name@);
            assert(Property::Ascender.spec_name() != name@);
            assert(Property::Descender.spec_name() != name@);
            assert(Property::CapHeight.spec_name() != name@);
            assert(Property::LockGuidelines.spec_name() != name@);
            assert(Property::ShowGlyphGuidelines.spec_name() != name@);
            assert(Property::ShowProjectGuidelines.spec_name() != name@);
            assert(Property::ShowMetricsGuidelines.spec_name() != name@);
            assert(Property::ActiveTool.spec_name() != name@);
            assert(Property::PanningTool.spec_name() != name@);
            assert(Property::Menubar.spec_name() != name@);
            assert(Property::Lock.spec_name() != name@);
            assert(Property::Snap.spec_name() != name@);
        }
        None
    }
}

/// Every property is on the list.
pub proof fn lemma_all_properties(p: Property)
    ensures
        all_properties().contains(p),
{
    let all = all_properties();
    assert(all[0] == Property::Title);
    assert(all[1] == Property::Closeable);
    assert(all[2] == Property::Preview);
    assert(all[3] == Property::IsMenuVisible);
    assert(all[4] == Property::UnitsPerEm);
    assert(all[5] == Property::XHeight);
    assert(all[6] == Property::Ascender);
    assert(all[7] == Property::Descender);
    assert(all[8] == Property::CapHeight);
    assert(all[9] == Property::LockGuidelines);
    assert(all[10] == Property::ShowGlyphGuidelines);
    assert(all[11] == Property::ShowProjectGuidelines);
    assert(all[12] == Property::ShowMetricsGuidelines);
    assert(all[13] == Property::ActiveTool);
    assert(all[14] == Property::PanningTool);
    assert(all[15] == Property::Menubar);
    assert(all[16] == Property::Lock);
    assert(all[17] == Property::Snap);
}

/// Lists the properties of the view, with what they take.
pub fn properties() -> (specs: Vec<PropertySpec>)
    ensures
        specs@ == all_properties().map_values(|p: Property| p.described()),
        specs@.len() == 18,
        specs@[0] == (PropertySpec {
            property: Property::Title,
            kind: PropertyKind::Text,
            writable: false,
        }),
        specs@[1] == (PropertySpec {
            property: Property::Closeable,
            kind: PropertyKind::Flag { default: true },
            writable: false,
        }),
        specs@[2] == (PropertySpec {
            property: Property::Preview,
            kind: PropertyKind::Flag { default: false },
            writable: true,
        }),
        specs@[3] == (PropertySpec {
            property: Property::IsMenuVisible,
            kind: PropertyKind::Flag { default: true },
            writable: false,
        }),
        specs@[4] == (PropertySpec {
            property: Property::UnitsPerEm,
            kind: PropertyKind::Number {
                minimum: Bound::At(1),
                maximum: Bound::Highest,
                default: 1000,
            },
            writable: true,
        }),
        specs@[5] == (PropertySpec {
            property: Property::XHeight,
            kind: PropertyKind::Number {
                minimum: Bound::At(1),
                maximum: Bound::Highest,
                default: 1000,
            },
            writable: true,
        }),
        specs@[6] == (PropertySpec {
            property: Property::Ascender,
            kind: PropertyKind::Number {
                minimum: Bound::Lowest,
                maximum: Bound::Highest,
                default: 700,
            },
            writable: true,
        }),
        specs@[7] == (PropertySpec {
            property: Property::Descender,
            kind: PropertyKind::Number {
                minimum: Bound::Lowest,
                maximum: Bound::Highest,
                default: (-200) as i32,
            },
            writable: true,
        }),
        specs@[8] == (PropertySpec {
            property: Property::CapHeight,
            kind: PropertyKind::Number {
                minimum: Bound::Lowest,
                maximum: Bound::Highest,
                default: 650,
            },
            writable: true,
        }),
        specs@[9] == (PropertySpec {
            property: Property::LockGuidelines,
            kind: PropertyKind::Flag { default: false },
            writable: true,
        }),
        specs@[10] == (PropertySpec {
            property: Property::ShowGlyphGuidelines,
            kind: PropertyKind::Flag { default: true },
            writable: true,
        }),
        specs@[11] == (PropertySpec {
            property: Property::ShowProjectGuidelines,
            kind: PropertyKind::Flag { default: true },
            writable: true,
        }),
        specs@[12] == (PropertySpec {
            property: Property::ShowMetricsGuidelines,
            kind: PropertyKind::Flag { default: true },
            writable: true,
        }),
        specs@[13] == (PropertySpec {
            property: Property::ActiveTool,
            kind: PropertyKind::Tool,
            writable: true,
        }),
        specs@[14] == (PropertySpec {
            property: Property::PanningTool,
            kind: PropertyKind::Tool,
            writable: true,
        }),
        specs@[15] == (PropertySpec {
            property: Property::Menubar,
            kind: PropertyKind::Menubar,
            writable: true,
        }),
        specs@[16] == (PropertySpec {
            property: Property::Lock,
            kind: PropertyKind::Bits { minimum: 0, maximum: 0xffff_ffff, default: 0 },
            writable: true,
        }),
        specs@[17] == (PropertySpec {
            property: Property::Snap,
            kind: PropertyKind::Bits { minimum: 0, maximum: 0xffff_ffff, default: 0 },
            writable: true,
        }),
{
    let all = Property::all();
    let mut specs: Vec<PropertySpec> = Vec::new();
    let mut i: usize = 0;
    while i < all.len()
        invariant
            i <= all@.len(),
            specs@ == all@.take(i as int).map_values(|p: Property| p.described()),
        decreases all@.len() - i,
    {
        assert(all@.take(i + 1).map_values(|p: Property| p.described()) =~= all@.take(
            i as int,
        ).map_values(|p: Property| p.described()).push(all@[i as int].described()));
        specs.push(all[i].describe());
        i += 1;
    }
    assert(all@.take(i as int) =~= all@);
    specs
}

/// A name belongs to one property only.
pub proof fn law_names_are_unique(a: Property, b: Property)
    ensures
        a.spec_name() == b.spec_name() ==> a == b,
{
    reveal_strlit("title");
    reveal_strlit("closeable");
    reveal_strlit("preview");
    reveal_strlit("is-menu-visible");
    reveal_strlit("units-per-em");
    reveal_strlit("x-height");
    reveal_strlit("ascender");
    reveal_strlit("descender");
    reveal_strlit("cap-height");
    reveal_strlit("lock-guidelines");
    reveal_strlit("show-glyph-guidelines");
    reveal_strlit("show-project-guidelines");
    reveal_strlit("show-metrics-guidelines");
    reveal_strlit("active-tool");
    reveal_strlit("panning-tool");
    reveal_strlit("menubar");
    reveal_strlit("lock");
    reveal_strlit("snap");
    if a.spec_name() == b.spec_name() {
        assert(a.spec_name().len() == b.spec_name().len());
        assert(a.spec_name()[0] == b.spec_name()[0]);
        assert(a.spec_name()[5] == b.spec_name()[5]);
    }
}

/// The name of each property.
pub proof fn law_names(p: Property)
    ensures
        p is Title ==> p.spec_name() == "title"@,
        p is Closeable ==> p.spec_name() == "closeable"@,
        p is Preview ==> p.spec_name() == "preview"@,
        p is IsMenuVisible ==> p.spec_name() == "is-menu-visible"@,
        p is UnitsPerEm ==> p.spec_name() == "units-per-em"@,
        p is XHeight ==> p.spec_name() == "x-height"@,
        p is Ascender ==> p.spec_name() == "ascender"@,
        p is Descender ==> p.spec_name() == "descender"@,
        p is CapHeight ==> p.spec_name() == "cap-height"@,
        p is LockGuidelines ==> p.spec_name() == "lock-guidelines"@,
        p is ShowGlyphGuidelines ==> p.spec_name() == "show-glyph-guidelines"@,
        p is ShowProjectGuidelines ==> p.spec_name() == "show-project-guidelines"@,
        p is ShowMetricsGuidelines ==> p.spec_name() == "show-metrics-guidelines"@,
        p is ActiveTool ==> p.spec_name() == "active-tool"@,
        p is PanningTool ==> p.spec_name() == "panning-tool"@,
        p is Menubar ==> p.spec_name() == "menubar"@,
        p is Lock ==> p.spec_name() == "lock"@,
        p is Snap ==> p.spec_name() == "snap"@,
{
}

/// A name that belongs to a property belongs to that one and to no other.
pub proof fn law_names_tell_apart(p: Property, name: Seq<char>)
    requires
        p.spec_name() == name,
    ensures
        name == "title"@ <==> p == Property::Title,
        name == "closeable"@ <==> p == Property::Closeable,
        name == "preview"@ <==> p == Property::Preview,
        name == "is-menu-visible"@ <==> p == Property::IsMenuVisible,
        name == "units-per-em"@ <==> p == Property::UnitsPerEm,
        name == "x-height"@ <==> p == Property::XHeight,
        name == "ascender"@ <==> p == Property::Ascender,
        name == "descender"@ <==> p == Property::Descender,
        name == "cap-height"@ <==> p == Property::CapHeight,
        name == "lock-guidelines"@ <==> p == Property::LockGuidelines,
        name == "show-glyph-guidelines"@ <==> p == Property::ShowGlyphGuidelines,
        name == "show-project-guidelines"@ <==> p == Property::ShowProjectGuidelines,
        name == "show-metrics-guidelines"@ <==> p == Property::ShowMetricsGuidelines,
        name == "active-tool"@ <==> p == Property::ActiveTool,
        name == "panning-tool"@ <==> p == Property::PanningTool,
        name == "menubar"@ <==> p == Property::Menubar,
        name == "lock"@ <==> p == Property::Lock,
        name == "snap"@ <==> p == Property::Snap,
{
    law_names_are_unique(p, Property::Title);
    law_names_are_unique(p, Property::Closeable);
    law_names_are_unique(p, Property::Preview);
    law_names_are_unique(p, Property::IsMenuVisible);
    law_names_are_unique(p, Property::UnitsPerEm);
    law_names_are_unique(p, Property::XHeight);
    law_names_are_unique(p, Property::Ascender);
    law_names_are_unique(p, Property::Descender);
    law_names_are_unique(p, Property::CapHeight);
    law_names_are_unique(p, Property::LockGuidelines);
    law_names_are_unique(p, Property::ShowGlyphGuidelines);
    law_names_are_unique(p, Property::ShowProjectGuidelines);
    law_names_are_unique(p, Property::ShowMetricsGuidelines);
    law_names_are_unique(p, Property::ActiveTool);
    law_names_are_unique(p, Property::PanningTool);
    law_names_are_unique(p, Property::Menubar);
    law_names_are_unique(p, Property::Lock);
    law_names_are_unique(p, Property::Snap);
}

/// What is said of each property: of those that constrain movement, what they do; of
/// the others, their name.
pub proof fn law_blurbs(p: Property)
    ensures
        p is Lock ==> p.spec_blurb() == "Lock transformation movement to specific axes."@,
        p is Snap ==> p.spec_blurb() == "Snap transformation movement to specific references."@,
        p is Title ==> p.spec_blurb() == "title"@,
        p is Closeable ==> p.spec_blurb() == "closeable"@,
        p is Preview ==> p.spec_blurb() == "preview"@,
        p is IsMenuVisible ==> p.spec_blurb() == "is-menu-visible"@,
        p is UnitsPerEm ==> p.spec_blurb() == "units-per-em"@,
        p is XHeight ==> p.spec_blurb() == "x-height"@,
        p is Ascender ==> p.spec_blurb() == "ascender"@,
        p is Descender ==> p.spec_blurb() == "descender"@,
        p is CapHeight ==> p.spec_blurb() == "cap-height"@,
        p is LockGuidelines ==> p.spec_blurb() == "lock-guidelines"@,
        p is ShowGlyphGuidelines ==> p.spec_blurb() == "show-glyph-guidelines"@,
        p is ShowProjectGuidelines ==> p.spec_blurb() == "show-project-guidelines"@,
        p is ShowMetricsGuidelines ==> p.spec_blurb() == "show-metrics-guidelines"@,
        p is ActiveTool ==> p.spec_blurb() == "active-tool"@,
        p is PanningTool ==> p.spec_blurb() == "panning-tool"@,
        p is Menubar ==> p.spec_blurb() == "menubar"@,
{
}

/// The properties in the order in which they are installed, with what each takes,
/// what it is at first, and whether it can be set.
pub proof fn law_properties()
    ensures
        all_properties().len() == 18,
        all_properties().map_values(|p: Property| p.described())[0] == (PropertySpec {
            property: Property::Title,
            kind: PropertyKind::Text,
            writable: false,
        }),
        all_properties().map_values(|p: Property| p.described())[1] == (PropertySpec {
            property: Property::Closeable,
            kind: PropertyKind::Flag { default: true },
            writable: false,
        }),
        all_properties().map_values(|p: Property| p.described())[2] == (PropertySpec {
            property: Property::Preview,
            kind: PropertyKind::Flag { default: false },
            writable: true,
        }),
        all_properties().map_values(|p: Property| p.described())[3] == (PropertySpec {
            property: Property::IsMenuVisible,
            kind: PropertyKind::Flag { default: true },
            writable: false,
        }),
        all_properties().map_values(|p: Property| p.described())[4] == (PropertySpec {
            property: Property::UnitsPerEm,
            kind: PropertyKind::Number {
                minimum: Bound::At(1),
                maximum: Bound::Highest,
                default: 1000,
            },
            writable: true,
        }),
        all_properties().map_values(|p: Property| p.described())[5] == (PropertySpec {
            property: Property::XHeight,
            kind: PropertyKind::Number {
                minimum: Bound::At(1),
                maximum: Bound::Highest,
                default: 1000,
            },
            writable: true,
        }),
        all_properties().map_values(|p: Property| p.described())[6] == (PropertySpec {
            property: Property::Ascender,
            kind: PropertyKind::Number {
                minimum: Bound::Lowest,
                maximum: Bound::Highest,
                default: 700,
            },
            writable: true,
        }),
        all_properties().map_values(|p: Property| p.described())[7] == (PropertySpec {
            property: Property::Descender,
            kind: PropertyKind::Number {
                minimum: Bound::Lowest,
                maximum: Bound::Highest,
                default: (-200) as i32,
            },
            writable: true,
        }),
        all_properties().map_values(|p: Property| p.described())[8] == (PropertySpec {
            property: Property::CapHeight,
            kind: PropertyKind::Number {
                minimum: Bound::Lowest,
                maximum: Bound::Highest,
                default: 650,
            },
            writable: true,
        }),
        all_properties().map_values(|p: Property| p.described())[9] == (PropertySpec {
            property: Property::LockGuidelines,
            kind: PropertyKind::Flag { default: false },
            writable: true,
        }),
        all_properties().map_values(|p: Property| p.described())[10] == (PropertySpec {
            property: Property::ShowGlyphGuidelines,
            kind: PropertyKind::Flag { default: true },
            writable: true,
        }),
        all_properties().map_values(|p: Property| p.described())[11] == (PropertySpec {
            property: Property::ShowProjectGuidelines,
            kind: PropertyKind::Flag { default: true },
            writable: true,
        }),
        all_properties().map_values(|p: Property| p.described())[12] == (PropertySpec {
            property: Property::ShowMetricsGuidelines,
            kind: PropertyKind::Flag { default: true },
            writable: true,
        }),
        all_properties().map_values(|p: Property| p.described())[13] == (PropertySpec {
            property: Property::ActiveTool,
            kind: PropertyKind::Tool,
            writable: true,
        }),
        all_properties().map_values(|p: Property| p.described())[14] == (PropertySpec {
            property: Property::PanningTool,
            kind: PropertyKind::Tool,
            writable: true,
        }),
        all_properties().map_values(|p: Property| p.described())[15] == (PropertySpec {
            property: Property::Menubar,
            kind: PropertyKind::Menubar,
            writable: true,
        }),
        all_properties().map_values(|p: Property| p.described())[16] == (PropertySpec {
            property: Property::Lock,
            kind: PropertyKind::Bits { minimum: 0, maximum: 0xffff_ffff, default: 0 },
            writable: true,
        }),
        all_properties().map_values(|p: Property| p.described())[17] == (PropertySpec {
            property: Property::Snap,
            kind: PropertyKind::Bits { minimum: 0, maximum: 0xffff_ffff, default: 0 },
            writable: true,
        }),
{
}

} // verus!

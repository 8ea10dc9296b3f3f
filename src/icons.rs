use vstd::prelude::*;

verus! {

/// The display preference: which family of tray icons shows the status.
#[derive(Clone, Copy, Debug, PartialEq, Eq, Structural)]
pub enum IconSet {
    Default,
    Alt,
}

/// The name under which a preference is stored.
pub open spec fn name_of(i: IconSet) -> Seq<char> {
    match i {
        IconSet::Default => "default"@,
        IconSet::Alt => "alt"@,
    }
}

/// The preference a stored name stands for: anything but `alt` is the default.
pub open spec fn parse_name(s: Seq<char>) -> IconSet {
    if s == "alt"@ {
        IconSet::Alt
    } else {
        IconSet::Default
    }
}

/// The icon file shown for a preference and an aggregate health.
pub open spec fn icon_file_of(i: IconSet, healthy: bool) -> Seq<char> {
    match i {
        IconSet::Alt => if healthy {
            "checked.png"@
        } else {
            "cross.png"@
        },
        IconSet::Default => if healthy {
            "green.png"@
        } else {
            "red.png"@
        },
    }
}

/// Reading back the stored name of a preference gives that preference.
pub proof fn lemma_name_round_trip(i: IconSet)
    ensures
        parse_name(name_of(i)) == i,
{
    reveal_strlit("alt");
    reveal_strlit("default");
    assert("default"@.len() != "alt"@.len());
}

/// The stored name of the default preference.
pub fn default_icon_set() -> (r: String)
    ensures
        r@ == name_of(IconSet::Default),
{
    String::from_str("default")
}

impl IconSet {
    /// The preference that a stored name stands for.
    pub fn from_name(s: &str) -> (r: IconSet)
        ensures
            r == parse_name(s@),
    {
        let given = String::from_str(s);
        let alt = String::from_str("alt");
        if given == alt {
            IconSet::Alt
        } else {
            IconSet::Default
        }
    }

    /// The name under which this preference is stored.
    pub fn name(&self) -> (r: String)
        ensures
            r@ == name_of(*self),
    {
        match self {
            IconSet::Default => default_icon_set(),
            IconSet::Alt => String::from_str("alt"),
        }
    }

    /// The icon file that shows the given aggregate health.
    pub fn icon_file(&self, healthy: bool) -> (r: &'static str)
        ensures
            r@ == icon_file_of(*self, healthy),
    {
        match self {
            IconSet::Alt => if healthy {
                "checked.png"
            } else {
                "cross.png"
            },
            IconSet::Default => if healthy {
                "green.png"
            } else {
                "red.png"
            },
        }
    }

    /// Whether the icon is drawn as a template image, tinted by the platform.
    pub fn is_template(&self) -> (r: bool)
        ensures
            r == (*self == IconSet::Alt),
    {
        match self {
            IconSet::Alt => true,
            IconSet::Default => false,
        }
    }
}

} // verus!

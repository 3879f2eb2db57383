use vstd::prelude::*;

verus! {

/// The tracked body part or device that the launcher is attached to.
#[derive(Debug, Clone, Copy, PartialEq, Eq, Structural)]
pub enum Target {
    HandLeft,
    HandRight,
    ControllerLeft,
    ControllerRight,
}

impl Target {
    /// The command-line name of this target.
    pub open spec fn arg_name(self) -> Seq<char> {
        match self {
            Target::HandLeft => "Hand/Left"@,
            Target::HandRight => "Hand/Right"@,
            Target::ControllerLeft => "Controller/Left"@,
            Target::ControllerRight => "Controller/Right"@,
        }
    }

    /// The well-known bus name of the service that exports the target's spatial reference.
    pub open spec fn well_known_name(self) -> Seq<char> {
        match self {
            Target::HandLeft | Target::HandRight => "org.stardustxr.Hands"@,
            Target::ControllerLeft | Target::ControllerRight => "org.stardustxr.Controllers"@,
        }
    }

    /// The object path of the spatial reference the launcher is parented to.
    pub open spec fn spatial_path(self) -> Seq<char> {
        match self {
            Target::HandLeft => "/org/stardustxr/Hand/left/palm"@,
            Target::HandRight => "/org/stardustxr/Hand/right/palm"@,
            Target::ControllerLeft => "/org/stardustxr/Controller/left"@,
            Target::ControllerRight => "/org/stardustxr/Controller/right"@,
        }
    }

    /// The object path whose tracking state decides whether the launcher is shown.
    pub open spec fn tracked_path(self) -> Seq<char> {
        match self {
            Target::HandLeft => "/org/stardustxr/Hand/left"@,
            Target::HandRight => "/org/stardustxr/Hand/right"@,
            Target::ControllerLeft => "/org/stardustxr/Controller/left"@,
            Target::ControllerRight => "/org/stardustxr/Controller/right"@,
        }
    }

    /// Reads a target from its command-line name; `None` for any other text.
    pub open spec fn from_arg_name(s: Seq<char>) -> Option<Target> {
        if s == Target::HandLeft.arg_name() {
            Some(Target::HandLeft)
        } else if s == Target::HandRight.arg_name() {
            Some(Target::HandRight)
        } else if s == Target::ControllerLeft.arg_name() {
            Some(Target::ControllerLeft)
        } else if s == Target::ControllerRight.arg_name() {
            Some(Target::ControllerRight)
        } else {
            None
        }
    }

    /// Parses a command-line name (`Hand/Left`, `Hand/Right`, `Controller/Left`,
    /// `Controller/Right`); any other text is refused and handed back as the error.
    pub fn parse(s: &str) -> (res: Result<Target, String>)
        ensures
            match res {
                Ok(t) => Target::from_arg_name(s@) == Some(t),
                Err(e) => Target::from_arg_name(s@) is None && e@ == s@,
            },
    {
        let owned: String = s.to_owned();
        if owned == "Hand/Left".to_owned() {
            Ok(Target::HandLeft)
        } else if owned == "Hand/Right".to_owned() {
            Ok(Target::HandRight)
        } else if owned == "Controller/Left".to_owned() {
            Ok(Target::ControllerLeft)
        } else if owned == "Controller/Right".to_owned() {
            Ok(Target::ControllerRight)
        } else {
            Err(owned)
        }
    }

    /// The bus name, the spatial reference path and the tracked object path of this target.
    pub fn spatial_ref_info(&self) -> (res: (&'static str, &'static str, &'static str))
        ensures
            res.0@ == self.well_known_name(),
            res.1@ == self.spatial_path(),
            res.2@ == self.tracked_path(),
    {
        match self {
            Target::HandLeft => (
                "org.stardustxr.Hands",
                "/org/stardustxr/Hand/left/palm",
                "/org/stardustxr/Hand/left",
            ),
            Target::HandRight => (
                "org.stardustxr.Hands",
                "/org/stardustxr/Hand/right/palm",
                "/org/stardustxr/Hand/right",
            ),
            Target::ControllerLeft => (
                "org.stardustxr.Controllers",
                "/org/stardustxr/Controller/left",
                "/org/stardustxr/Controller/left",
            ),
            Target::ControllerRight => (
                "org.stardustxr.Controllers",
                "/org/stardustxr/Controller/right",
                "/org/stardustxr/Controller/right",
            ),
        }
    }
}

impl std::str::FromStr for Target {
    type Err = String;

    fn from_str(s: &str) -> (res: Result<Target, String>)
        ensures
            match res {
                Ok(t) => Target::from_arg_name(s@) == Some(t),
                Err(e) => Target::from_arg_name(s@) is None && e@ == s@,
            },
    {
        Target::parse(s)
    }
}

/// Every target's command-line name reads back as that target.
pub proof fn lemma_arg_name_round_trip(t: Target)
    ensures
        Target::from_arg_name(t.arg_name()) == Some(t),
{
    reveal_strlit("Hand/Left");
    reveal_strlit("Hand/Right");
    reveal_strlit("Controller/Left");
    reveal_strlit("Controller/Right");
    assert("Hand/Left"@.len() == 9 && "Hand/Right"@.len() == 10);
    assert("Controller/Left"@.len() == 15 && "Controller/Right"@.len() == 16);
}

/// A hand's launcher sits on the palm below the tracked hand object; a controller's
/// launcher sits on the tracked controller object itself.
pub proof fn lemma_spatial_path_within_tracked_path(t: Target)
    ensures
        match t {
            Target::HandLeft | Target::HandRight => t.spatial_path() == t.tracked_path()
                + "/palm"@,
            Target::ControllerLeft | Target::ControllerRight => t.spatial_path()
                == t.tracked_path(),
        },
{
    reveal_strlit("/org/stardustxr/Hand/left/palm");
    reveal_strlit("/org/stardustxr/Hand/right/palm");
    reveal_strlit("/org/stardustxr/Hand/left");
    reveal_strlit("/org/stardustxr/Hand/right");
    reveal_strlit("/palm");
    assert(t.spatial_path() =~= t.tracked_path() + "/palm"@ || t is ControllerLeft || t is ControllerRight);
}

} // verus!

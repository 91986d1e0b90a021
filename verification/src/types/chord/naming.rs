//! Chords given a name: the root, the quality and the extensions.
use vstd::prelude::*;
use vstd::string::StringExecFns;

use super::quality::{spec_detect, ChordQuality};
use super::Chord;
use crate::traits::slice_contains;
use crate::types::Interval;

verus! {

/// Which of the intervals that extend a triad a chord holds.
pub struct Extensions {
    /// A minor seventh.
    pub minor_seventh: bool,
    /// A major seventh.
    pub major_seventh: bool,
    /// A ninth, major or minor, be it an octave lower as a second.
    pub ninth: bool,
    /// A perfect eleventh, be it an octave lower as a fourth.
    pub eleventh: bool,
    /// A thirteenth, major or minor, be it an octave lower as a sixth.
    pub thirteenth: bool,
    /// A major third.
    pub major: bool,
}

/// The extensions among a list of intervals.
pub open spec fn extensions_of(intervals: Seq<Interval>) -> Extensions {
    Extensions {
        minor_seventh: intervals.contains(Interval::minor_seventh()),
        major_seventh: intervals.contains(Interval::major_seventh()),
        ninth: intervals.contains(Interval::major_ninth()) || intervals.contains(
            Interval::minor_ninth(),
        ) || intervals.contains(Interval::minor_second()) || intervals.contains(
            Interval::major_second(),
        ),
        eleventh: intervals.contains(Interval::perfect_eleventh()) || intervals.contains(
            Interval::perfect_fourth(),
        ),
        thirteenth: intervals.contains(Interval::major_thirteenth()) || intervals.contains(
            Interval::minor_thirteenth(),
        ) || intervals.contains(Interval::major_sixth()) || intervals.contains(
            Interval::minor_sixth(),
        ),
        major: intervals.contains(Interval::major_third()),
    }
}

/// The label of a chord whose highest extension is a thirteenth. With the
/// eleventh and the ninth both there, a minor seventh makes it a plain `13`;
/// without one of them, a major seventh is looked for first, and what is
/// missing is said.
pub open spec fn thirteenth_label(e: Extensions) -> Seq<char> {
    if e.eleventh && e.ninth {
        if e.minor_seventh {
            "13"@
        } else if e.major_seventh {
            if e.major {
                "maj13"@
            } else {
                "(maj13)"@
            }
        } else {
            "add13"@
        }
    } else if e.major_seventh {
        if e.major {
            if e.ninth {
                "maj13(no11)"@
            } else if e.eleventh {
                "maj13(no9)"@
            } else {
                "maj7(add13)"@
            }
        } else if e.ninth {
            "(maj13)(no11)"@
        } else if e.eleventh {
            "(maj13)(no9)"@
        } else {
            "(maj7)(add13)"@
        }
    } else if e.minor_seventh {
        if e.ninth {
            "13(no11)"@
        } else if e.eleventh {
            "13(no9)"@
        } else {
            "7(add13)"@
        }
    } else {
        "add13"@
    }
}

/// The label of a chord whose highest extension is an eleventh.
pub open spec fn eleventh_label(e: Extensions) -> Seq<char> {
    if e.ninth {
        if e.major_seventh {
            if e.major {
                "maj11"@
            } else {
                "(maj11)"@
            }
        } else if e.minor_seventh {
            "11"@
        } else {
            "add11"@
        }
    } else if e.major_seventh {
        if e.major {
            "maj7(add11)"@
        } else {
            "(maj7)(add11)"@
        }
    } else if e.minor_seventh {
        "7(add11)"@
    } else {
        "add11"@
    }
}

/// The label of a chord whose highest extension is a ninth.
pub open spec fn ninth_label(e: Extensions) -> Seq<char> {
    if e.minor_seventh {
        "9"@
    } else if e.major_seventh {
        if e.major {
            "maj9"@
        } else {
            "(maj9)"@
        }
    } else {
        "add9"@
    }
}

/// The label of a chord with no extension above the seventh: empty where
/// it has no seventh either.
pub open spec fn seventh_label(e: Extensions) -> Seq<char> {
    if e.minor_seventh {
        "7"@
    } else if e.major_seventh {
        if e.major {
            "maj7"@
        } else {
            "(maj7)"@
        }
    } else {
        ""@
    }
}

/// The label for the extensions of a chord. The highest extension decides:
/// the thirteenth before the eleventh, the eleventh before the ninth, the
/// ninth before the seventh. The label of a higher extension says what lies
/// below it, so that no two labels are ever joined.
pub open spec fn extension_label(e: Extensions) -> Seq<char> {
    if e.thirteenth {
        thirteenth_label(e)
    } else if e.eleventh {
        eleventh_label(e)
    } else if e.ninth {
        ninth_label(e)
    } else {
        seventh_label(e)
    }
}

/// How a quality is written after the root: nothing for a major chord or
/// for none, `m`, `dim` or `aug` for the others.
pub open spec fn quality_suffix(quality: Option<ChordQuality>) -> Seq<char> {
    match quality {
        Some(ChordQuality::Major) => ""@,
        Some(ChordQuality::Minor) => "m"@,
        Some(ChordQuality::Diminished) => "dim"@,
        Some(ChordQuality::Augmented) => "aug"@,
        None => ""@,
    }
}

impl Chord {
    /// The name of the chord in short: the root, the quality, the
    /// extensions.
    pub open spec fn name(&self) -> Seq<char> {
        self.root.text() + quality_suffix(spec_detect(self.intervals@)) + extension_label(
            extensions_of(self.intervals@),
        )
    }

    /// Which of the intervals that extend a triad the chord holds.
    pub fn extensions(&self) -> (r: Extensions)
        ensures
            r == extensions_of(self.intervals@),
    {
        let intervals = self.intervals.as_slice();
        Extensions {
            minor_seventh: slice_contains(intervals, Interval::minor_seventh()),
            major_seventh: slice_contains(intervals, Interval::major_seventh()),
            ninth: slice_contains(intervals, Interval::major_ninth()) || slice_contains(
                intervals,
                Interval::minor_ninth(),
            ) || slice_contains(intervals, Interval::minor_second()) || slice_contains(
                intervals,
                Interval::major_second(),
            ),
            eleventh: slice_contains(intervals, Interval::perfect_eleventh()) || slice_contains(
                intervals,
                Interval::perfect_fourth(),
            ),
            thirteenth: slice_contains(intervals, Interval::major_thirteenth()) || slice_contains(
                intervals,
                Interval::minor_thirteenth(),
            ) || slice_contains(intervals, Interval::major_sixth()) || slice_contains(
                intervals,
                Interval::minor_sixth(),
            ),
            major: slice_contains(intervals, Interval::major_third()),
        }
    }

    /// The label for the extensions of the chord, such as `7`, `maj9` or
    /// `13(no11)`; empty for a chord without any.
    pub fn extended_type(&self) -> (r: String)
        ensures
            r@ == extension_label(extensions_of(self.intervals@)),
    {
        let e = self.extensions();
        let label = if e.thirteenth {
            if e.eleventh && e.ninth {
                if e.minor_seventh {
                    "13"
                } else if e.major_seventh {
                    if e.major {
                        "maj13"
                    } else {
                        "(maj13)"
                    }
                } else {
                    "add13"
                }
            } else if e.major_seventh {
                if e.major {
                    if e.ninth {
                        "maj13(no11)"
                    } else if e.eleventh {
                        "maj13(no9)"
                    } else {
                        "maj7(add13)"
                    }
                } else if e.ninth {
                    "(maj13)(no11)"
                } else if e.eleventh {
                    "(maj13)(no9)"
                } else {
                    "(maj7)(add13)"
                }
            } else if e.minor_seventh {
                if e.ninth {
                    "13(no11)"
                } else if e.eleventh {
                    "13(no9)"
                } else {
                    "7(add13)"
                }
            } else {
                "add13"
            }
        } else if e.eleventh {
            if e.ninth {
                if e.major_seventh {
                    if e.major {
                        "maj11"
                    } else {
                        "(maj11)"
                    }
                } else if e.minor_seventh {
                    "11"
                } else {
                    "add11"
                }
            } else if e.major_seventh {
                if e.major {
                    "maj7(add11)"
                } else {
                    "(maj7)(add11)"
                }
            } else if e.minor_seventh {
                "7(add11)"
            } else {
                "add11"
            }
        } else if e.ninth {
            if e.minor_seventh {
                "9"
            } else if e.major_seventh {
                if e.major {
                    "maj9"
                } else {
                    "(maj9)"
                }
            } else {
                "add9"
            }
        } else if e.minor_seventh {
            "7"
        } else if e.major_seventh {
            if e.major {
                "maj7"
            } else {
                "(maj7)"
            }
        } else {
            ""
        };
        String::from_str(label)
    }

    /// The name of the chord in short, such as `Am`, `G7` or `Cmaj9`.
    pub fn abbreviated_name(&self) -> (r: String)
        requires
            self.root.is_valid(),
        ensures
            r@ == self.name(),
    {
        let quality = match self.quality() {
            Some(ChordQuality::Major) => "",
            Some(ChordQuality::Minor) => "m",
            Some(ChordQuality::Diminished) => "dim",
            Some(ChordQuality::Augmented) => "aug",
            None => "",
        };
        let extended = self.extended_type();
        self.root.to_string().concat(quality).concat(extended.as_str())
    }

    /// Writes the chord out as its name in short.
    pub fn to_string(&self) -> (r: String)
        requires
            self.root.is_valid(),
        ensures
            r@ == self.name(),
    {
        self.abbreviated_name()
    }
}

} // verus!

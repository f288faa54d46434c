//! Robot calibration from URDF files: the joint elements of a URDF document,
//! with the text of their limits. The limits are read as floating-point
//! numbers, and the calibration values built, outside the verified library.

use vstd::prelude::*;
use vstd::string::StringExecFns;
use crate::text::{chars_of, concat, decimal, find_chars, find_from, lemma_find_from, owned, push_decimal};

verus! {

/// A joint element of a URDF document: its name, its type, and, when a
/// `<limit>` element lies in its content, the text of that element's
/// `lower` and `upper` attributes.
#[derive(Debug, Clone)]
pub struct UrdfJoint {
    pub name: String,
    pub joint_type: String,
    pub limit: Option<(Option<String>, Option<String>)>,
}

/// A joint's name, type, and limit attribute texts.
pub type JointView = (Seq<char>, Seq<char>, Option<(Option<Seq<char>>, Option<Seq<char>>)>);

pub open spec fn opt_view(o: Option<String>) -> Option<Seq<char>> {
    match o {
        Some(s) => Some(s@),
        None => None,
    }
}

pub open spec fn joint_view(j: UrdfJoint) -> JointView {
    (
        j.name@,
        j.joint_type@,
        match j.limit {
            Some((l, u)) => Some((opt_view(l), opt_view(u))),
            None => None,
        },
    )
}

/// The value of attribute `name` in the tag text `tag`: what lies between
/// the first `name="` and the next `"`.
pub open spec fn xml_attr(tag: Seq<char>, name: Seq<char>) -> Option<Seq<char>> {
    let pat = name + "=\""@;
    match find_from(tag, pat, 0) {
        Some(st) => {
            let vs = st + pat.len();
            match find_from(tag, "\""@, vs) {
                Some(e) => Some(tag.subrange(vs, e)),
                None => None,
            }
        },
        None => None,
    }
}

/// The limit element in the text `content`: the first `<limit` in it, up
/// to its next `>`, with its `lower` and `upper` attributes.
pub open spec fn limit_in(content: Seq<char>) -> Option<(Option<Seq<char>>, Option<Seq<char>>)> {
    match find_from(content, "<limit"@, 0) {
        Some(st) => match find_from(content, ">"@, st) {
            Some(te) => {
                let tag = content.subrange(st, te);
                Some((xml_attr(tag, "lower"@), xml_attr(tag, "upper"@)))
            },
            None => None,
        },
        None => None,
    }
}

/// Where the content of the joint whose tag ends at `end` stops: at the
/// first `</joint>` after the tag, or at the end of the document.
pub open spec fn joint_content_end(x: Seq<char>, end: int) -> int {
    match find_from(x, "</joint>"@, end) {
        Some(c) => c,
        None => x.len() as int,
    }
}

/// The limit of the joint whose tag ends (with its `>`) at `end` in `x`:
/// none for a self-closing tag, else the limit element within the joint's
/// own content.
pub open spec fn joint_limit(x: Seq<char>, end: int) -> Option<(Option<Seq<char>>, Option<Seq<char>>)> {
    if x[end - 1] == '/' {
        None
    } else {
        limit_in(x.subrange(end, joint_content_end(x, end)))
    }
}

/// The joints of the URDF document `x` from position `pos` on, the first
/// of them numbered `count`: each `<joint` tag up to its `>` gives a joint
/// named by its `name` attribute (`joint_<number>` without one), typed by
/// its `type` attribute ("revolute" without one), with the limit within
/// its own content; the next joint is looked for after the `</joint>` that
/// follows, and there is none without one.
pub open spec fn urdf_joints_from(x: Seq<char>, pos: int, count: nat) -> Seq<JointView>
    decreases x.len() + 1 - pos,
{
    if pos < 0 || pos > x.len() {
        Seq::empty()
    } else {
        match find_from(x, "<joint"@, pos) {
            None => Seq::empty(),
            Some(st) => match find_from(x, ">"@, st) {
                None => Seq::empty(),
                Some(end) => {
                    let tag = x.subrange(st, end + 1);
                    let joint = (
                        match xml_attr(tag, "name"@) {
                            Some(n) => n,
                            None => "joint_"@ + decimal(count),
                        },
                        match xml_attr(tag, "type"@) {
                            Some(t) => t,
                            None => "revolute"@,
                        },
                        joint_limit(x, end),
                    );
                    match find_from(x, "</joint>"@, st) {
                        Some(close) => {
                            proof {
                                reveal_strlit("</joint>");
                                lemma_find_from(x, "<joint"@, pos);
                                lemma_find_from(x, "</joint>"@, st);
                            }
                            seq![joint] + urdf_joints_from(x, close + 8, count + 1)
                        },
                        None => seq![joint],
                    }
                },
            },
        }
    }
}

/// The first position at or after `from` where `p` occurs in `s`.
fn find_str(s: &Vec<char>, p: &str, from: usize) -> (r: Option<usize>)
    ensures
        match r {
            Some(i) => find_from(s@, p@, from as int) == Some(i as int),
            None => find_from(s@, p@, from as int) is None,
        },
{
    let pc = chars_of(p);
    find_chars(s, &pc, from)
}

/// Generates robot calibrations from URDF documents.
pub struct RobotCalibrationGenerator;

impl RobotCalibrationGenerator {
    /// The value of attribute `attr_name` in the tag text `tag`.
    pub fn extract_xml_attr(tag: &str, attr_name: &str) -> (r: Option<String>)
        ensures
            opt_view(r) == xml_attr(tag@, attr_name@),
    {
        let t = chars_of(tag);
        let pattern = concat(attr_name, "=\"");
        let start = match find_str(&t, pattern.as_str(), 0) {
            Some(s) => s,
            None => return None,
        };
        proof {
            lemma_find_from(t@, pattern@, 0);
        }
        assert(start + pattern@.len() <= t@.len());
        let plen = pattern.as_str().unicode_len();
        assert(plen == pattern@.len());
        assert(start + plen <= t.len());
        let value_start = start + plen;
        let value_end = match find_str(&t, "\"", value_start) {
            Some(e) => e,
            None => return None,
        };
        proof {
            lemma_find_from(t@, "\""@, value_start as int);
        }
        Some(owned(tag.substring_char(value_start, value_end)))
    }

    /// The `<limit>` element in a joint's content.
    fn parse_joint_limit(content: &str) -> (r: Option<(Option<String>, Option<String>)>)
        ensures
            match (r, limit_in(content@)) {
                (Some((l, u)), Some((lv, uv))) => opt_view(l) == lv && opt_view(u) == uv,
                (None, None) => true,
                _ => false,
            },
    {
        let x = chars_of(content);
        let start = match find_str(&x, "<limit", 0) {
            Some(s) => s,
            None => return None,
        };
        let tag_end = match find_str(&x, ">", start) {
            Some(e) => e,
            None => return None,
        };
        proof {
            lemma_find_from(content@, "<limit"@, 0);
            lemma_find_from(content@, ">"@, start as int);
        }
        let tag = content.substring_char(start, tag_end);
        let lower = Self::extract_xml_attr(tag, "lower");
        let upper = Self::extract_xml_attr(tag, "upper");
        Some((lower, upper))
    }

    /// The limit of the joint whose tag ends (with its `>`) at `end` of `xml`.
    fn joint_limit_at(xml: &str, x: &Vec<char>, end: usize) -> (r: Option<(Option<String>, Option<String>)>)
        requires
            x@ == xml@,
            0 < end < x@.len(),
        ensures
            match (r, joint_limit(xml@, end as int)) {
                (Some((l, u)), Some((lv, uv))) => opt_view(l) == lv && opt_view(u) == uv,
                (None, None) => true,
                _ => false,
            },
    {
        if x[end - 1] == '/' {
            return None;
        }
        let stop = match find_str(x, "</joint>", end) {
            Some(c) => c,
            None => x.len(),
        };
        proof {
            lemma_find_from(xml@, "</joint>"@, end as int);
        }
        let content = xml.substring_char(end, stop);
        Self::parse_joint_limit(content)
    }

    /// The joint elements of a URDF document, in document order.
    pub fn parse_urdf_joints(xml: &str) -> (r: Vec<UrdfJoint>)
        ensures
            r@.map_values(|j: UrdfJoint| joint_view(j)) == urdf_joints_from(xml@, 0, 0),
    {
        let x = chars_of(xml);
        let n = x.len();
        let mut joints: Vec<UrdfJoint> = Vec::new();
        let mut pos: usize = 0;
        loop
            invariant_except_break
                pos <= n,
                urdf_joints_from(xml@, 0, 0) == joints@.map_values(|j: UrdfJoint| joint_view(j))
                    + urdf_joints_from(xml@, pos as int, joints@.len()),
            invariant
                x@ == xml@,
                n == x@.len(),
            ensures
                urdf_joints_from(xml@, 0, 0) == joints@.map_values(|j: UrdfJoint| joint_view(j)),
            decreases n - pos,
        {
            let ghost before = joints@.map_values(|j: UrdfJoint| joint_view(j));
            let start = match find_str(&x, "<joint", pos) {
                Some(s) => s,
                None => {
                    assert(before + Seq::<JointView>::empty() =~= before);
                    break;
                },
            };
            let end = match find_str(&x, ">", start) {
                Some(e) => e,
                None => {
                    assert(before + Seq::<JointView>::empty() =~= before);
                    break;
                },
            };
            proof {
                reveal_strlit(">");
                lemma_find_from(xml@, "<joint"@, pos as int);
                lemma_find_from(xml@, ">"@, start as int);
                reveal_strlit("<joint");
                assert(xml@[start as int] == xml@.subrange(start as int, start + 6)[0]);
                assert(xml@[end as int] == xml@.subrange(end as int, end + 1)[0]);
            }
            let tag = xml.substring_char(start, end + 1);
            let name = match Self::extract_xml_attr(tag, "name") {
                Some(v) => v,
                None => {
                    let mut v = owned("joint_");
                    push_decimal(&mut v, joints.len() as u64);
                    v
                },
            };
            let joint_type = match Self::extract_xml_attr(tag, "type") {
                Some(v) => v,
                None => owned("revolute"),
            };
            let limit = Self::joint_limit_at(xml, &x, end);
            let joint = UrdfJoint { name, joint_type, limit };
            let ghost count = joints@.len();
            joints.push(joint);
            proof {
                assert(joints@.map_values(|j: UrdfJoint| joint_view(j)) =~= before.push(joint_view(joint)));
            }
            match find_str(&x, "</joint>", start) {
                Some(close) => {
                    proof {
                        reveal_strlit("</joint>");
                        lemma_find_from(xml@, "</joint>"@, start as int);
                        assert(urdf_joints_from(xml@, pos as int, count) == seq![joint_view(joint)]
                            + urdf_joints_from(xml@, close + 8, count + 1));
                        assert(before.push(joint_view(joint)) + urdf_joints_from(xml@, close + 8, count + 1)
                            =~= before + (seq![joint_view(joint)] + urdf_joints_from(
                            xml@,
                            close + 8,
                            count + 1,
                        )));
                    }
                    pos = close + 8;
                },
                None => {
                    proof {
                        assert(urdf_joints_from(xml@, pos as int, count) == seq![joint_view(joint)]);
                        assert(before.push(joint_view(joint)) =~= before + seq![joint_view(joint)]);
                    }
                    break;
                },
            }
        }
        joints
    }
}

} // verus!

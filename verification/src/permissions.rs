//! The interactive permission editor: three octal digits with a cursor,
//! a template list, and live explanations. A pure state machine — applying
//! the chosen mode to the filesystem is the embedder's job, triggered by
//! `apply_requested` once `handle_input` reports that the editor is done.

use vstd::prelude::*;
use crate::keys::Key;
use crate::models::file_entry::rwx_of;
use crate::models::file_entry::push_rwx;

verus! {

/// Octal permission editor over a set of target paths.
#[derive(Debug)]
pub struct ChmodInterface {
    /// The three digit values, owner / group / other, each in `0..=7`.
    pub digits: Vec<u8>,
    /// The cursor among the three digit positions, in `0..=2`.
    pub position: usize,
    /// The paths the chosen mode will be applied to.
    pub selected_paths: Vec<String>,
    /// Whether the preview banner is shown.
    pub preview_mode: bool,
    /// Whether the template list has focus instead of the digits.
    pub show_templates: bool,
    /// The cursor in the template list, in `0..=9`.
    pub template_index: usize,
    /// Set when the editor exited by applying; the embedder then sets the
    /// combined mode on every target, best effort.
    pub apply_requested: bool,
}

/// The editor's state as plain mathematical values.
pub struct ChmodView {
    pub digits: Seq<u8>,
    pub position: int,
    pub selected_paths: Seq<String>,
    pub preview_mode: bool,
    pub show_templates: bool,
    pub template_index: int,
    pub apply_requested: bool,
}

impl View for ChmodInterface {
    type V = ChmodView;

    open spec fn view(&self) -> ChmodView {
        ChmodView {
            digits: self.digits@,
            position: self.position as int,
            selected_paths: self.selected_paths@,
            preview_mode: self.preview_mode,
            show_templates: self.show_templates,
            template_index: self.template_index as int,
            apply_requested: self.apply_requested,
        }
    }
}

impl ChmodView {
    /// Well-formedness: cursor within the three digits, each digit octal,
    /// template cursor within the ten presets.
    pub open spec fn wf(self) -> bool {
        &&& self.digits.len() == 3
        &&& forall|i: int| 0 <= i < 3 ==> self.digits[i] <= 7
        &&& 0 <= self.position <= 2
        &&& 0 <= self.template_index <= 9
    }
}

/// The digit triple of the preset at `i`, in the fixed order
/// 755, 644, 600, 700, 775, 664, 666, 777, 400, 500.
pub open spec fn template_digits(i: int) -> Seq<u8> {
    if i == 0 { seq![7u8, 5u8, 5u8] }
    else if i == 1 { seq![6u8, 4u8, 4u8] }
    else if i == 2 { seq![6u8, 0u8, 0u8] }
    else if i == 3 { seq![7u8, 0u8, 0u8] }
    else if i == 4 { seq![7u8, 7u8, 5u8] }
    else if i == 5 { seq![6u8, 6u8, 4u8] }
    else if i == 6 { seq![6u8, 6u8, 6u8] }
    else if i == 7 { seq![7u8, 7u8, 7u8] }
    else if i == 8 { seq![4u8, 0u8, 0u8] }
    else { seq![5u8, 0u8, 0u8] }
}

/// One step of the editor: the state after the key, and whether the editor
/// stays open. Cursor moves and digit changes clamp at their bounds; Enter
/// applies and closes; Escape closes without applying.
pub open spec fn chmod_step(s: ChmodView, key: Key) -> (ChmodView, bool) {
    if s.show_templates {
        match key {
            Key::Up => (
                ChmodView {
                    template_index: if s.template_index > 0 { s.template_index - 1 } else { 0 },
                    ..s
                },
                true,
            ),
            Key::Down => (
                ChmodView {
                    template_index: if s.template_index < 9 { s.template_index + 1 } else { s.template_index },
                    ..s
                },
                true,
            ),
            Key::Enter => (
                ChmodView { digits: template_digits(s.template_index), apply_requested: true, ..s },
                false,
            ),
            Key::Char(c) => if c == 't' || c == 'T' {
                (ChmodView { show_templates: false, ..s }, true)
            } else {
                (s, true)
            },
            Key::Esc => (s, false),
            _ => (s, true),
        }
    } else {
        match key {
            Key::Left => (
                ChmodView { position: if s.position > 0 { s.position - 1 } else { 0 }, ..s },
                true,
            ),
            Key::Right => (
                ChmodView { position: if s.position < 2 { s.position + 1 } else { s.position }, ..s },
                true,
            ),
            Key::Up => (
                ChmodView {
                    digits: if s.digits[s.position] < 7 {
                        s.digits.update(s.position, (s.digits[s.position] + 1) as u8)
                    } else {
                        s.digits
                    },
                    ..s
                },
                true,
            ),
            Key::Down => (
                ChmodView {
                    digits: if s.digits[s.position] > 0 {
                        s.digits.update(s.position, (s.digits[s.position] - 1) as u8)
                    } else {
                        s.digits
                    },
                    ..s
                },
                true,
            ),
            Key::Char(c) => if c == 't' || c == 'T' {
                (ChmodView { show_templates: true, template_index: 0, ..s }, true)
            } else if c == 'p' || c == 'P' {
                (ChmodView { preview_mode: !s.preview_mode, ..s }, true)
            } else {
                (s, true)
            },
            Key::Enter => (ChmodView { apply_requested: true, ..s }, false),
            Key::Esc => (s, false),
            _ => (s, true),
        }
    }
}

/// Every step from a well-formed state stays well-formed: the digit cursor
/// stays in `0..=2`, each digit in `0..=7`, the template cursor in `0..=9`,
/// however often a boundary-directed key is repeated.
pub proof fn lemma_chmod_step_clamped(s: ChmodView, key: Key)
    requires
        s.wf(),
    ensures
        chmod_step(s, key).0.wf(),
{
}

/// The description of what one digit grants, as rendered per audience.
pub open spec fn digit_desc(d: int) -> Seq<char> {
    let r = d % 8 >= 4;
    let w = d % 4 >= 2;
    let x = d % 2 == 1;
    if !r && !w && !x {
        "nothing (no access)"@
    } else {
        (if r { "read"@ } else { Seq::<char>::empty() })
        + (if w { (if r { ", "@ } else { Seq::<char>::empty() }) + "write"@ } else { Seq::<char>::empty() })
        + (if x { (if r || w { ", "@ } else { Seq::<char>::empty() }) + "execute/enter"@ } else { Seq::<char>::empty() })
    }
}

/// The canned security remark for a digit triple: well-known octal patterns
/// get a fixed verdict, anything else is judged by whether others can write.
pub open spec fn security_remark(d0: int, d1: int, d2: int) -> Seq<char> {
    if d0 == 7 && d1 == 7 && d2 == 7 {
        "\u{26a0}\u{fe0f} VERY INSECURE - Anyone can do anything!"@
    } else if d0 == 6 && d1 == 6 && d2 == 6 {
        "\u{26a0}\u{fe0f} Risky - Anyone can modify these files"@
    } else if d0 == 7 && d1 == 5 && d2 == 5 {
        "\u{2713} Standard - Safe for programs and directories"@
    } else if d0 == 6 && d1 == 4 && d2 == 4 {
        "\u{2713} Standard - Safe for regular files"@
    } else if d0 == 6 && d1 == 0 && d2 == 0 {
        "\u{2713} Secure - Only you have access"@
    } else if d0 == 7 && d1 == 0 && d2 == 0 {
        "\u{2713} Secure - Private directory/executable"@
    } else if d0 == 0 && d1 == 0 && d2 == 0 {
        "\u{26a0}\u{fe0f} Locked - Nobody can access (unusual)"@
    } else if d2 % 4 >= 2 {
        "\u{26a0}\u{fe0f} World-writable - Consider restricting"@
    } else {
        "Custom permissions set"@
    }
}

impl ChmodInterface {
    /// A fresh editor for the given targets. The digits start from the
    /// current mode of the first target when the embedder could probe one,
    /// and from the safe default 644 otherwise.
    pub fn new(selected_paths: Vec<String>, initial_mode: Option<u32>) -> (s: Self)
        ensures
            s@.wf(),
            s@.digits == (match initial_mode {
                Some(m) => seq![((m / 64) % 8) as u8, ((m / 8) % 8) as u8, (m % 8) as u8],
                None => seq![6u8, 4u8, 4u8],
            }),
            s@.position == 0,
            s@.selected_paths == selected_paths@,
            s@.preview_mode == true,
            s@.show_templates == false,
            s@.template_index == 0,
            s@.apply_requested == false,
    {
        let mut digits: Vec<u8> = Vec::new();
        match initial_mode {
            Some(m) => {
                digits.push(((m / 64) % 8) as u8);
                digits.push(((m / 8) % 8) as u8);
                digits.push((m % 8) as u8);
            },
            None => {
                digits.push(6);
                digits.push(4);
                digits.push(4);
            },
        }
        proof {
            assert(digits@ =~= (match initial_mode {
                Some(m) => seq![((m / 64) % 8) as u8, ((m / 8) % 8) as u8, (m % 8) as u8],
                None => seq![6u8, 4u8, 4u8],
            }));
        }
        ChmodInterface {
            digits,
            position: 0,
            selected_paths,
            preview_mode: true,
            show_templates: false,
            template_index: 0,
            apply_requested: false,
        }
    }

    /// Routes one key press; answers whether the editor stays open, as
    /// `chmod_step` describes.
    pub fn handle_input(&mut self, key: Key) -> (cont: bool)
        requires
            old(self)@.wf(),
        ensures
            final(self)@ == chmod_step(old(self)@, key).0,
            cont == chmod_step(old(self)@, key).1,
            final(self)@.wf(),
    {
        proof {
            lemma_chmod_step_clamped(old(self)@, key);
        }
        if self.show_templates {
            match key {
                Key::Up => {
                    if self.template_index > 0 {
                        self.template_index = self.template_index - 1;
                    }
                    true
                },
                Key::Down => {
                    if self.template_index < 9 {
                        self.template_index = self.template_index + 1;
                    }
                    true
                },
                Key::Enter => {
                    let mut digits: Vec<u8> = Vec::new();
                    let (a, b, c) = self.template_values();
                    digits.push(a);
                    digits.push(b);
                    digits.push(c);
                    proof {
                        assert(digits@ =~= template_digits(old(self)@.template_index));
                    }
                    self.digits = digits;
                    self.apply_requested = true;
                    false
                },
                Key::Char(c) => {
                    if c == 't' || c == 'T' {
                        self.show_templates = false;
                    }
                    true
                },
                Key::Esc => false,
                _ => true,
            }
        } else {
            match key {
                Key::Left => {
                    if self.position > 0 {
                        self.position = self.position - 1;
                    }
                    true
                },
                Key::Right => {
                    if self.position < 2 {
                        self.position = self.position + 1;
                    }
                    true
                },
                Key::Up => {
                    let d = self.digits[self.position];
                    if d < 7 {
                        self.digits.set(self.position, d + 1);
                    }
                    true
                },
                Key::Down => {
                    let d = self.digits[self.position];
                    if d > 0 {
                        self.digits.set(self.position, d - 1);
                    }
                    true
                },
                Key::Char(c) => {
                    if c == 't' || c == 'T' {
                        self.show_templates = true;
                        self.template_index = 0;
                    } else if c == 'p' || c == 'P' {
                        self.preview_mode = !self.preview_mode;
                    }
                    true
                },
                Key::Enter => {
                    self.apply_requested = true;
                    false
                },
                Key::Esc => false,
                _ => true,
            }
        }
    }

    /// The digit triple of the preset under the template cursor.
    pub fn template_values(&self) -> (r: (u8, u8, u8))
        requires
            self@.wf(),
        ensures
            seq![r.0, r.1, r.2] == template_digits(self@.template_index),
    {
        let i = self.template_index;
        if i == 0 { (7, 5, 5) }
        else if i == 1 { (6, 4, 4) }
        else if i == 2 { (6, 0, 0) }
        else if i == 3 { (7, 0, 0) }
        else if i == 4 { (7, 7, 5) }
        else if i == 5 { (6, 6, 4) }
        else if i == 6 { (6, 6, 6) }
        else if i == 7 { (7, 7, 7) }
        else if i == 8 { (4, 0, 0) }
        else { (5, 0, 0) }
    }

    /// The combined octal mode: owner times 64, plus group times 8, plus
    /// other.
    pub fn combined_mode(&self) -> (r: u32)
        requires
            self@.wf(),
        ensures
            r == 64 * self@.digits[0] + 8 * self@.digits[1] + self@.digits[2],
    {
        (self.digits[0] as u32) * 64 + (self.digits[1] as u32) * 8 + (self.digits[2] as u32)
    }

    /// The nine-character symbolic rendering of the three digits.
    pub fn get_visual_permissions(&self) -> (r: String)
        requires
            self@.wf(),
        ensures
            r@ == rwx_of(self@.digits[0] as int) + rwx_of(self@.digits[1] as int)
                + rwx_of(self@.digits[2] as int),
    {
        let mut s = String::new();
        push_rwx(&mut s, self.digits[0] as u32);
        push_rwx(&mut s, self.digits[1] as u32);
        push_rwx(&mut s, self.digits[2] as u32);
        proof {
            assert(s@ =~= rwx_of(self@.digits[0] as int) + rwx_of(self@.digits[1] as int)
                + rwx_of(self@.digits[2] as int));
        }
        s
    }

    /// What one digit grants, in words.
    pub fn digit_to_permissions(&self, digit: u8) -> (r: String)
        ensures
            r@ == digit_desc(digit as int),
    {
        let has_r = digit % 8 >= 4;
        let has_w = digit % 4 >= 2;
        let has_x = digit % 2 == 1;
        if !has_r && !has_w && !has_x {
            return String::from_str("nothing (no access)");
        }
        let mut s = String::new();
        if has_r {
            s.append("read");
        }
        if has_w {
            if has_r {
                s.append(", ");
            }
            s.append("write");
        }
        if has_x {
            if has_r || has_w {
                s.append(", ");
            }
            s.append("execute/enter");
        }
        proof {
            assert(s@ =~= digit_desc(digit as int));
        }
        s
    }

    /// The four explanation lines: what owner, group and everyone else can
    /// do, then the security remark.
    pub fn get_explanations(&self) -> (r: Vec<String>)
        requires
            self@.wf(),
        ensures
            r@.len() == 4,
            r@[0]@ == "Owner can: "@ + digit_desc(self@.digits[0] as int),
            r@[1]@ == "Group members can: "@ + digit_desc(self@.digits[1] as int),
            r@[2]@ == "Everyone else can: "@ + digit_desc(self@.digits[2] as int),
            r@[3]@ == security_remark(self@.digits[0] as int, self@.digits[1] as int, self@.digits[2] as int),
    {
        let mut out: Vec<String> = Vec::new();

        let mut owner = String::from_str("Owner can: ");
        let od = self.digit_to_permissions(self.digits[0]);
        owner.append(od.as_str());
        out.push(owner);

        let mut group = String::from_str("Group members can: ");
        let gd = self.digit_to_permissions(self.digits[1]);
        group.append(gd.as_str());
        out.push(group);

        let mut other = String::from_str("Everyone else can: ");
        let xd = self.digit_to_permissions(self.digits[2]);
        other.append(xd.as_str());
        out.push(other);

        let d0 = self.digits[0];
        let d1 = self.digits[1];
        let d2 = self.digits[2];
        let remark: &str = if d0 == 7 && d1 == 7 && d2 == 7 {
            "\u{26a0}\u{fe0f} VERY INSECURE - Anyone can do anything!"
        } else if d0 == 6 && d1 == 6 && d2 == 6 {
            "\u{26a0}\u{fe0f} Risky - Anyone can modify these files"
        } else if d0 == 7 && d1 == 5 && d2 == 5 {
            "\u{2713} Standard - Safe for programs and directories"
        } else if d0 == 6 && d1 == 4 && d2 == 4 {
            "\u{2713} Standard - Safe for regular files"
        } else if d0 == 6 && d1 == 0 && d2 == 0 {
            "\u{2713} Secure - Only you have access"
        } else if d0 == 7 && d1 == 0 && d2 == 0 {
            "\u{2713} Secure - Private directory/executable"
        } else if d0 == 0 && d1 == 0 && d2 == 0 {
            "\u{26a0}\u{fe0f} Locked - Nobody can access (unusual)"
        } else if d2 % 4 >= 2 {
            "\u{26a0}\u{fe0f} World-writable - Consider restricting"
        } else {
            "Custom permissions set"
        };
        out.push(String::from_str(remark));
        out
    }
}

/// Keeps the file-type bits of an existing mode and replaces its nine
/// permission bits with `perm`'s: what the embedder sets on each target.
pub fn preserve_file_type(existing: u32, perm: u32) -> (r: u32)
    ensures
        r == existing - existing % 512 + perm % 512,
{
    let q = existing / 512;
    proof {
        assert(existing == 512 * (existing as int / 512) + existing as int % 512);
        assert(q <= 0xffffffffu32 / 512);
    }
    q * 512 + perm % 512
}

} // verus!

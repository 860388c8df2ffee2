//! Installing the shell bridge into Explorer: which Explorer threads get hooks,
//! how a taskbar process is recognised, and how a failed installation is rolled
//! back. The window and hook calls themselves are made by the caller.

use crate::localization::{decimal, spec_decimal};
use vstd::prelude::*;
use vstd::string::*;

verus! {

/// The lower-case form of an ASCII letter; any other character unchanged.
pub open spec fn ascii_lower(c: char) -> char {
    if 'A' <= c && c <= 'Z' {
        ((c as u32) + 32) as char
    } else {
        c
    }
}

/// Two texts are equal when ASCII letters are compared without case.
pub open spec fn eq_ignore_ascii_case(a: Seq<char>, b: Seq<char>) -> bool {
    a.len() == b.len() && forall|i: int| 0 <= i < a.len() ==> ascii_lower(#[trigger] a[i]) == ascii_lower(b[i])
}

fn lower(c: char) -> (r: char)
    ensures
        r == ascii_lower(c),
{
    if 'A' <= c && c <= 'Z' {
        ((c as u8) + 32) as char
    } else {
        c
    }
}

/// The part of `path` after its last backslash (the whole path without one).
pub open spec fn file_name_start(path: Seq<char>) -> int
    decreases path.len(),
{
    if path.len() == 0 {
        0
    } else if path.last() == '\\' {
        path.len() as int
    } else {
        file_name_start(path.drop_last())
    }
}

pub open spec fn file_name(path: Seq<char>) -> Seq<char> {
    path.subrange(file_name_start(path), path.len() as int)
}

proof fn lemma_file_name_start(path: Seq<char>, k: int)
    requires
        0 <= k <= path.len(),
        forall|j: int| k <= j < path.len() ==> path[j] != '\\',
        k == 0 || path[k - 1] == '\\',
    ensures
        file_name_start(path) == k,
    decreases path.len(),
{
    if path.len() > k {
        let rest = path.drop_last();
        assert forall|j: int| k <= j < rest.len() implies rest[j] != '\\' by {
            assert(rest[j] == path[j]);
        }
        if k > 0 {
            assert(rest[k - 1] == path[k - 1]);
        }
        lemma_file_name_start(rest, k);
    } else if k > 0 {
        assert(path.last() == path[k - 1]);
    }
}

/// Whether the process image `path` is Explorer: its file name is
/// `explorer.exe`, in any case.
pub fn is_explorer_image(path: &str) -> (r: bool)
    ensures
        r == eq_ignore_ascii_case(file_name(path@), "explorer.exe"@),
{
    image_file_is(path, "explorer.exe")
}

/// Whether the file name of the process image `path` is `expected`, in any
/// case.
pub(crate) fn image_file_is(path: &str, expected: &str) -> (r: bool)
    ensures
        r == eq_ignore_ascii_case(file_name(path@), expected@),
{
    let length = path.unicode_len();
    let mut start: usize = length;
    while start > 0 && path.get_char(start - 1) != '\\'
        invariant
            0 <= start <= length,
            length == path@.len(),
            forall|j: int| start <= j < length ==> path@[j] != '\\',
        decreases start,
    {
        start -= 1;
    }
    proof {
        lemma_file_name_start(path@, start as int);
    }
    let name = path.substring_char(start, length);
    if name.unicode_len() != expected.unicode_len() {
        return false;
    }
    let mut index: usize = 0;
    while index < name.unicode_len()
        invariant
            name@ == file_name(path@),
            name@.len() == expected@.len(),
            0 <= index <= name@.len(),
            forall|i: int| 0 <= i < index ==> ascii_lower(#[trigger] name@[i]) == ascii_lower(expected@[i]),
        decreases name@.len() - index,
    {
        if lower(name.get_char(index)) != lower(expected.get_char(index)) {
            return false;
        }
        index += 1;
    }
    true
}

/// Whether two texts are equal.
pub fn text_equals(a: &str, b: &str) -> (r: bool)
    ensures
        r == (a@ == b@),
{
    let length = a.unicode_len();
    if length != b.unicode_len() {
        return false;
    }
    let mut index: usize = 0;
    while index < length
        invariant
            length == a@.len(),
            length == b@.len(),
            0 <= index <= length,
            forall|i: int| 0 <= i < index ==> a@[i] == b@[i],
        decreases length - index,
    {
        if a.get_char(index) != b.get_char(index) {
            return false;
        }
        index += 1;
    }
    assert(a@ =~= b@);
    true
}

/// The window classes of Explorer whose threads get the hooks: the taskbars,
/// the XAML host islands and the task list thumbnails.
pub open spec fn spec_is_hooked_class(class: Seq<char>) -> bool {
    ||| class == "Shell_TrayWnd"@
    ||| class == "Shell_SecondaryTrayWnd"@
    ||| class == "XamlExplorerHostIslandWindow"@
    ||| class == "TaskListThumbnailWnd"@
    ||| class == "TaskListThumbnailWndXaml"@
}

pub fn is_hooked_class(class: &str) -> (r: bool)
    ensures
        r == spec_is_hooked_class(class@),
{
    text_equals(class, "Shell_TrayWnd") || text_equals(class, "Shell_SecondaryTrayWnd") || text_equals(
        class,
        "XamlExplorerHostIslandWindow",
    ) || text_equals(class, "TaskListThumbnailWnd") || text_equals(class, "TaskListThumbnailWndXaml")
}

/// Whether a window, owned by process `owner` and thread `thread` and of class
/// `class`, adds its thread to those of Explorer process `explorer` that get
/// the hooks.
pub fn collects_thread(owner: u32, thread: u32, explorer: u32, class: &str) -> (r: bool)
    ensures
        r == (owner == explorer && thread != 0 && spec_is_hooked_class(class@)),
{
    owner == explorer && thread != 0 && is_hooked_class(class)
}

/// `ids` is strictly increasing.
pub open spec fn strictly_increasing(ids: Seq<u32>) -> bool {
    forall|i: int, j: int| 0 <= i < j < ids.len() ==> ids[i] < ids[j]
}

fn insert_sorted(ids: &mut Vec<u32>, id: u32)
    requires
        strictly_increasing(old(ids)@),
    ensures
        strictly_increasing(final(ids)@),
        final(ids)@.to_set() == old(ids)@.to_set().insert(id),
{
    let mut index: usize = 0;
    while index < ids.len() && ids[index] < id
        invariant
            0 <= index <= ids@.len(),
            forall|j: int| 0 <= j < index ==> ids@[j] < id,
        decreases ids@.len() - index,
    {
        index += 1;
    }
    if index < ids.len() && ids[index] == id {
        proof {
            assert(ids@.to_set().insert(id) =~= ids@.to_set()) by {
                assert(ids@.to_set().contains(ids@[index as int]));
            }
        }
        return;
    }
    let ghost before = ids@;
    ids.insert(index, id);
    proof {
        let after = ids@;
        assert(after =~= before.subrange(0, index as int).push(id) + before.subrange(index as int, before.len() as int));
        assert forall|i: int, j: int| 0 <= i < j < after.len() implies after[i] < after[j] by {
            if i < index && j == index {
            } else if i < index && j > index {
                assert(after[j] == before[j - 1]);
                assert(before[i] < before[j - 1] || i == j - 1);
            } else if i == index && j > index {
                assert(after[j] == before[j - 1]);
                assert(before[index as int] >= id);
                assert(before[index as int] != id);
                assert(before[index as int] <= before[j - 1]) by {
                    if index < j - 1 {
                        assert(before[index as int] < before[j - 1]);
                    }
                }
            } else if i > index {
                assert(after[i] == before[i - 1] && after[j] == before[j - 1]);
            }
        }
        assert(after.to_set() =~= before.to_set().insert(id)) by {
            assert forall|x: u32| after.to_set().contains(x) implies before.to_set().insert(id).contains(x) by {
                let k = choose|k: int| 0 <= k < after.len() && after[k] == x;
                if k < index {
                    assert(before[k] == x);
                } else if k > index {
                    assert(before[k - 1] == x);
                }
            }
            assert forall|x: u32| before.to_set().insert(id).contains(x) implies after.to_set().contains(x) by {
                if x == id {
                    assert(after[index as int] == id);
                } else {
                    let k = choose|k: int| 0 <= k < before.len() && before[k] == x;
                    if k < index {
                        assert(after[k] == x);
                    } else {
                        assert(after[k + 1] == x);
                    }
                }
            }
        }
    }
}

/// The Explorer threads that get the hooks: that of the main taskbar and the
/// collected ones, each once, in increasing order.
pub fn hook_thread_ids(taskbar_thread: u32, collected: &Vec<u32>) -> (r: Vec<u32>)
    ensures
        strictly_increasing(r@),
        r@.to_set() == collected@.to_set().insert(taskbar_thread),
{
    let mut ids: Vec<u32> = Vec::new();
    ids.push(taskbar_thread);
    proof {
        assert(ids@.to_set() =~= Set::<u32>::empty().insert(taskbar_thread)) by {
            assert(ids@[0] == taskbar_thread);
        }
        assert(collected@.subrange(0, 0).to_set() =~= Set::<u32>::empty());
    }
    let mut index: usize = 0;
    while index < collected.len()
        invariant
            0 <= index <= collected@.len(),
            strictly_increasing(ids@),
            ids@.to_set() == collected@.subrange(0, index as int).to_set().insert(taskbar_thread),
        decreases collected@.len() - index,
    {
        insert_sorted(&mut ids, collected[index]);
        proof {
            let prefix = collected@.subrange(0, index as int);
            let next = collected@.subrange(0, index as int + 1);
            assert(next =~= prefix.push(collected@[index as int]));
            assert(next.to_set() =~= prefix.to_set().insert(collected@[index as int])) by {
                assert forall|x: u32| next.to_set().contains(x) implies prefix.to_set().insert(collected@[index as int]).contains(x) by {
                    let k = choose|k: int| 0 <= k < next.len() && next[k] == x;
                    if k < prefix.len() {
                        assert(prefix[k] == x);
                    }
                }
                assert forall|x: u32| prefix.to_set().insert(collected@[index as int]).contains(x) implies next.to_set().contains(x) by {
                    if x == collected@[index as int] {
                        assert(next[index as int] == x);
                    } else {
                        let k = choose|k: int| 0 <= k < prefix.len() && prefix[k] == x;
                        assert(next[k] == x);
                    }
                }
            }
            assert(ids@.to_set() =~= next.to_set().insert(taskbar_thread));
        }
        index += 1;
    }
    proof {
        assert(collected@.subrange(0, collected@.len() as int) =~= collected@);
    }
    ids
}

/// The taskbar's thread and process, or the error that they could not be read.
pub fn taskbar_owner(thread: u32, process: u32) -> (r: Result<(u32, u32), String>)
    ensures
        thread != 0 && process != 0 ==> r == Ok::<(u32, u32), String>((thread, process)),
        thread == 0 || process == 0 ==> (r matches Err(e) && e@ == "无法读取任务栏所属线程"@),
{
    if thread == 0 || process == 0 {
        return Err(String::from_str("无法读取任务栏所属线程"));
    }
    Ok((thread, process))
}

/// The hook kinds installed on each thread.
#[derive(Clone, Copy, Debug, PartialEq, Eq, Structural)]
pub enum HookKind {
    Message,
    Mouse,
}

/// The hooks installed so far, by their handles, so that a failure can remove
/// them again.
pub struct HookInstallation {
    pub message_hooks: Vec<u64>,
    pub mouse_hooks: Vec<u64>,
}

impl HookInstallation {
    pub fn new() -> (r: Self)
        ensures
            r.message_hooks@ == Seq::<u64>::empty(),
            r.mouse_hooks@ == Seq::<u64>::empty(),
    {
        HookInstallation { message_hooks: Vec::new(), mouse_hooks: Vec::new() }
    }

    /// Records an installed hook.
    pub fn record(&mut self, kind: HookKind, hook: u64)
        ensures
            kind == HookKind::Message ==> final(self).message_hooks@ == old(self).message_hooks@.push(hook)
                && final(self).mouse_hooks@ == old(self).mouse_hooks@,
            kind == HookKind::Mouse ==> final(self).mouse_hooks@ == old(self).mouse_hooks@.push(hook)
                && final(self).message_hooks@ == old(self).message_hooks@,
    {
        match kind {
            HookKind::Message => self.message_hooks.push(hook),
            HookKind::Mouse => self.mouse_hooks.push(hook),
        }
    }

    /// The hooks to remove on failure, in order: the mouse hooks, then the
    /// message hooks; none are left recorded.
    pub fn rollback(&mut self) -> (r: Vec<u64>)
        ensures
            r@ == old(self).mouse_hooks@ + old(self).message_hooks@,
            final(self).message_hooks@ == Seq::<u64>::empty(),
            final(self).mouse_hooks@ == Seq::<u64>::empty(),
    {
        let mut hooks: Vec<u64> = Vec::new();
        hooks.append(&mut self.mouse_hooks);
        hooks.append(&mut self.message_hooks);
        hooks
    }
}

/// The error reported when the hook of `kind` could not be installed on
/// `thread`, with the system's `reason`.
pub open spec fn spec_hook_error(kind: HookKind, thread: u32, reason: Seq<char>) -> Seq<char> {
    "安装 Explorer 线程 "@ + spec_decimal(thread as nat) + match kind {
        HookKind::Message => " 的消息钩子失败："@,
        HookKind::Mouse => " 的鼠标钩子失败："@,
    } + reason
}

pub fn hook_error(kind: HookKind, thread: u32, reason: &str) -> (r: String)
    ensures
        r@ == spec_hook_error(kind, thread, reason@),
{
    let mut message = String::from_str("安装 Explorer 线程 ");
    let number = decimal(thread);
    message.append(number.as_str());
    match kind {
        HookKind::Message => message.append(" 的消息钩子失败："),
        HookKind::Mouse => message.append(" 的鼠标钩子失败："),
    }
    message.append(reason);
    message
}

} // verus!

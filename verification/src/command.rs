//! The requests that stand for an external program, as command lines.

use crate::request::{OverlayMount, OverlayMountView, Request, RequestView, Splash};
use crate::text::appended;
use vstd::prelude::*;

verus! {

/// A program and its arguments.
#[derive(Clone, Debug, PartialEq, Eq)]
pub struct Command {
    pub program: String,
    pub args: Vec<String>,
}

/// A command as contracts see it.
pub struct CommandView {
    pub program: Seq<char>,
    pub args: Seq<Seq<char>>,
}

/// The texts of a list as contracts see them.
pub open spec fn texts_view(texts: Seq<String>) -> Seq<Seq<char>> {
    texts.map_values(|text: String| text@)
}

impl View for Command {
    type V = CommandView;

    open spec fn view(&self) -> CommandView {
        CommandView { program: self.program@, args: texts_view(self.args@) }
    }
}

/// The options that an overlay is mounted with: read-only, the three trees,
/// and neither an inode index nor metadata-only copies.
pub open spec fn overlay_options(overlay: OverlayMountView) -> Seq<char> {
    "ro,lowerdir="@ + overlay.lower + ",upperdir="@ + overlay.upper + ",workdir="@ + overlay.work
        + ",index=off,metacopy=off"@
}

/// The arguments of the boot splash's client for `verb`.
pub open spec fn splash_args(verb: Splash) -> Seq<Seq<char>> {
    match verb {
        Splash::Announce => seq![
            "display-message"@,
            "--text=Migrating to v2 rootfs. Can take a while."@,
        ],
        Splash::Hide => seq!["hide-splash"@],
        Splash::Show => seq!["show-splash"@],
        Splash::Quit => seq!["quit"@],
    }
}

/// The command line that carries `request` out, for the requests that stand
/// for a program; none for the others.
pub open spec fn command_of(request: RequestView) -> Option<CommandView> {
    match request {
        RequestView::Settle => Some(
            CommandView { program: "udevadm"@, args: seq!["settle"@, "--timeout=8"@] },
        ),
        RequestView::Splash { verb } => Some(
            CommandView { program: "plymouth"@, args: splash_args(verb) },
        ),
        RequestView::Reboot => Some(CommandView { program: "systemctl"@, args: seq!["reboot"@] }),
        RequestView::Mount { overlay } => Some(
            CommandView {
                program: "mount"@,
                args: seq![
                    "--verbose"@,
                    "--types"@,
                    "overlay"@,
                    "--options"@,
                    overlay_options(overlay),
                    "overlay"@,
                    overlay.mount_point,
                ],
            },
        ),
        RequestView::Copy { from, to } => Some(
            CommandView {
                program: "cp"@,
                args: seq![
                    "--recursive"@,
                    "--archive"@,
                    "--reflink=auto"@,
                    "--no-target-directory"@,
                    from,
                    to,
                ],
            },
        ),
        RequestView::Unmount { mount_point } => Some(
            CommandView { program: "umount"@, args: seq![mount_point] },
        ),
        _ => None,
    }
}

impl OverlayMount {
    /// The text handed to `mount` as its options.
    pub fn options(&self) -> (text: String)
        ensures
            text@ == overlay_options(self@),
    {
        let mut text = appended("ro,lowerdir=", self.lower.as_str());
        text.append(",upperdir=");
        text.append(self.upper.as_str());
        text.append(",workdir=");
        text.append(self.work.as_str());
        text.append(",index=off,metacopy=off");
        text
    }
}

/// Puts a program and its arguments together.
fn command(program: &str, args: Vec<String>) -> (command: Command)
    ensures
        command@ == (CommandView { program: program@, args: texts_view(args@) }),
{
    Command { program: program.to_owned(), args }
}

/// Adds `text` to the end of `args`.
fn push_text(args: &mut Vec<String>, text: &str)
    ensures
        texts_view(final(args)@) == texts_view(old(args)@).push(text@),
{
    args.push(text.to_owned());
    assert(texts_view(args@) =~= texts_view(old(args)@).push(text@));
}

/// The command line that carries `request` out, if `request` stands for a
/// program.
pub fn command_for(request: &Request) -> (line: Option<Command>)
    ensures
        line.is_some() == command_of(request@).is_some(),
        line.is_some() ==> line.unwrap()@ == command_of(request@).unwrap(),
{
    let mut args: Vec<String> = Vec::new();
    assert(texts_view(args@) =~= Seq::<Seq<char>>::empty());
    match request {
        Request::Settle => {
            push_text(&mut args, "settle");
            push_text(&mut args, "--timeout=8");
            assert(texts_view(args@) =~= seq!["settle"@, "--timeout=8"@]);
            Some(command("udevadm", args))
        },
        Request::Splash { verb } => {
            match verb {
                Splash::Announce => {
                    push_text(&mut args, "display-message");
                    push_text(&mut args, "--text=Migrating to v2 rootfs. Can take a while.");
                },
                Splash::Hide => {
                    push_text(&mut args, "hide-splash");
                },
                Splash::Show => {
                    push_text(&mut args, "show-splash");
                },
                Splash::Quit => {
                    push_text(&mut args, "quit");
                },
            }
            assert(texts_view(args@) =~= splash_args(*verb));
            Some(command("plymouth", args))
        },
        Request::Reboot => {
            push_text(&mut args, "reboot");
            assert(texts_view(args@) =~= seq!["reboot"@]);
            Some(command("systemctl", args))
        },
        Request::Mount { overlay } => {
            let options = overlay.options();
            push_text(&mut args, "--verbose");
            push_text(&mut args, "--types");
            push_text(&mut args, "overlay");
            push_text(&mut args, "--options");
            push_text(&mut args, options.as_str());
            push_text(&mut args, "overlay");
            push_text(&mut args, overlay.mount_point.as_str());
            assert(texts_view(args@) =~= command_of(request@).unwrap().args);
            Some(command("mount", args))
        },
        Request::Copy { from, to } => {
            push_text(&mut args, "--recursive");
            push_text(&mut args, "--archive");
            push_text(&mut args, "--reflink=auto");
            push_text(&mut args, "--no-target-directory");
            push_text(&mut args, from.as_str());
            push_text(&mut args, to.as_str());
            assert(texts_view(args@) =~= command_of(request@).unwrap().args);
            Some(command("cp", args))
        },
        Request::Unmount { mount_point } => {
            push_text(&mut args, mount_point.as_str());
            assert(texts_view(args@) =~= seq![mount_point@]);
            Some(command("umount", args))
        },
        _ => None,
    }
}

} // verus!

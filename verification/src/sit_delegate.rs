//! The command dispatcher: one verified transition per UI event. The UI
//! layer turns its raw commands into `AppEvent` values, hands them here,
//! and polls the state afterwards; every decision lives in this module,
//! none in the UI.
use vstd::prelude::*;

use crate::app_state::{AppState, Mode};
use crate::messages::{watermark_line, watermark_message};
use crate::paths::{admits_source, admits_watermark};

verus! {

/// One event of the UI layer, stripped to what the dispatcher decides on.
pub enum AppEvent {
    /// The user picked one file in the open dialog.
    OpenFile(String),
    /// The user asked to pick source files next.
    Opening,
    /// The user asked to pick the watermark next.
    Watermark,
    /// A batch conversion started.
    Processing,
    /// A batch conversion was requested.
    Convert,
    /// A batch conversion finished.
    Done,
    /// One status line arrived from the conversion loop.
    Message(String),
}

/// Only the mode changed between two states.
pub open spec fn only_mode_changed(pre: AppState, post: AppState, m: Mode) -> bool {
    &&& post.mode == m
    &&& post.title == pre.title
    &&& post.files@ == pre.files@
    &&& post.watermark == pre.watermark
    &&& post.messages@ == pre.messages@
    &&& post.status == pre.status
}

/// Nothing changed between two states.
pub open spec fn unchanged(pre: AppState, post: AppState) -> bool {
    only_mode_changed(pre, post, pre.mode)
}

/// What one picked file does to the state: in watermark mode it is
/// reported and, when admitted, becomes the watermark; in any other mode
/// it joins the pending list when admitted.
pub open spec fn open_file_transition(pre: AppState, post: AppState, path: Seq<char>) -> bool {
    &&& if pre.mode == Mode::AwaitingWatermark {
        &&& post.messages.deep_view() == pre.messages.deep_view().push(watermark_line(path))
        &&& (admits_watermark(path) ==> post.watermark@ == path)
        &&& (!admits_watermark(path) ==> post.watermark == pre.watermark)
        &&& post.files@ == pre.files@
    } else {
        &&& (admits_source(path) ==> post.files.deep_view() == pre.files.deep_view().push(path))
        &&& (!admits_source(path) ==> post.files@ == pre.files@)
        &&& post.messages@ == pre.messages@
        &&& post.watermark == pre.watermark
    }
    &&& post.mode == pre.mode
    &&& post.title == pre.title
    &&& post.status == pre.status
}

/// The application delegate: dispatches every UI event against the state.
pub struct SitDelegate;

impl SitDelegate {
    /// Dispatch one event. Every variant is handled; the conversion loop
    /// itself runs outside and reports back through `Message` events.
    pub fn command(&self, data: &mut AppState, event: AppEvent)
        ensures
            match event {
                AppEvent::OpenFile(path) => open_file_transition(*old(data), *final(data), path@),
                AppEvent::Opening => only_mode_changed(
                    *old(data),
                    *final(data),
                    Mode::AwaitingSourceFiles,
                ),
                AppEvent::Watermark => only_mode_changed(
                    *old(data),
                    *final(data),
                    Mode::AwaitingWatermark,
                ),
                AppEvent::Processing => only_mode_changed(*old(data), *final(data), Mode::Converting),
                AppEvent::Done => only_mode_changed(*old(data), *final(data), Mode::Done),
                AppEvent::Convert => unchanged(*old(data), *final(data)),
                AppEvent::Message(msg) => {
                    &&& final(data).messages@ == old(data).messages@.push(msg)
                    &&& final(data).title == old(data).title
                    &&& final(data).files@ == old(data).files@
                    &&& final(data).watermark == old(data).watermark
                    &&& final(data).status == old(data).status
                    &&& final(data).mode == old(data).mode
                },
            },
    {
        match event {
            AppEvent::OpenFile(path) => {
                if data.mode == Mode::AwaitingWatermark {
                    let line = watermark_message(path.as_str());
                    data.add_message(line);
                    data.set_watermark(path.as_str());
                    proof {
                        assert(data.messages.deep_view() =~= old(data).messages.deep_view().push(
                            watermark_line(path@),
                        ));
                    }
                } else {
                    data.add_file(path.as_str());
                }
            },
            AppEvent::Opening => {
                data.mode = Mode::AwaitingSourceFiles;
            },
            AppEvent::Watermark => {
                data.mode = Mode::AwaitingWatermark;
            },
            AppEvent::Processing => {
                data.mode = Mode::Converting;
            },
            AppEvent::Done => {
                data.mode = Mode::Done;
            },
            AppEvent::Convert => {},
            AppEvent::Message(msg) => {
                data.add_message(msg);
            },
        }
    }
}

} // verus!

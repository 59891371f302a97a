//! What is kept of the remote session: the latest frame, the displays, whether
//! it is connected and how.

use vstd::prelude::*;

use crate::event::SdkEvent;
use crate::frame::{format_number, frame_message_gives_back_the_frame, le_number, stride_of};
use crate::frame::{ImageRgb, LatestFrame};
use crate::reply::screenshot_message;
use crate::text::{join, same_text};

verus! {

/// One display of the remote machine.
#[derive(Clone, Copy, Debug, PartialEq, Eq, Structural)]
pub struct DisplayInfo {
    pub x: i32,
    pub y: i32,
    pub width: i32,
    pub height: i32,
}

/// The state that the callbacks of a session keep up to date, without any GUI.
pub struct HeadlessHandler {
    /// The latest frame, once there is one.
    pub frame: Option<LatestFrame>,
    /// The displays that the remote machine last listed.
    pub displays: Vec<DisplayInfo>,
    /// Whether the session is connected.
    pub connected: bool,
    /// How the session is connected, once known: directly, secured, and over
    /// which kind of stream.
    pub conn_info: Option<(bool, bool, String)>,
}

/// How a session is connected.
pub struct Route {
    pub direct: bool,
    pub secured: bool,
    pub stream: Seq<char>,
}

/// What is said of the connection: what was last set, and until then that it
/// is relayed and secured, over an unknown stream.
pub open spec fn route_of(conn_info: Option<(bool, bool, String)>) -> Route {
    match conn_info {
        Some(info) => Route { direct: info.0, secured: info.1, stream: info.2@ },
        None => Route { direct: false, secured: true, stream: "unknown"@ },
    }
}

/// The event tells that the session is connected by this route.
pub open spec fn announces(event: SdkEvent, route: Route) -> bool {
    &&& event is Connected
    &&& event->direct == route.direct
    &&& event->secured == route.secured
    &&& event->stream@ == route.stream
}

/// The event tells that the session ended for this reason.
pub open spec fn ends(event: SdkEvent, reason: Seq<char>) -> bool {
    event is Disconnected && event->reason@ == reason
}

/// The frame shows the image.
pub open spec fn shows(frame: LatestFrame, image: ImageRgb) -> bool {
    &&& frame.data@ == image.raw@
    &&& frame.w == image.w
    &&& frame.h == image.h
    &&& frame.fmt == image.fmt
    &&& frame.stride == stride_of(image.raw@.len(), image.h as nat)
}

/// A callback of the session that bears on whether it is connected.
pub enum Callback {
    /// The session came up.
    Up,
    /// The session was closed.
    Closed,
    /// The session had a message of this type for its user.
    Message { msgtype: Seq<char> },
}

/// Whether the callback ends the session.
pub open spec fn is_end(callback: Callback) -> bool {
    callback is Closed || (callback is Message && callback->msgtype == "error"@)
}

/// Whether the session is connected after the callback.
pub open spec fn connected_after(connected: bool, callback: Callback) -> bool {
    if callback is Up {
        true
    } else if is_end(callback) {
        false
    } else {
        connected
    }
}

/// Whether the session is connected after the callbacks, in their order.
pub open spec fn connected_after_all(connected: bool, callbacks: Seq<Callback>) -> bool
    decreases callbacks.len(),
{
    if callbacks.len() == 0 {
        connected
    } else {
        connected_after(connected_after_all(connected, callbacks.drop_last()), callbacks.last())
    }
}

/// The last callback that tells decides whether the session is connected: it
/// is if that callback was the session coming up, and is not if the session
/// was closed or failed. Messages that are no errors change nothing.
pub proof fn the_last_telling_callback_decides(
    connected: bool,
    callbacks: Seq<Callback>,
    last: int,
)
    requires
        0 <= last < callbacks.len(),
        callbacks[last] is Up || is_end(callbacks[last]),
        forall|i: int|
            last < i < callbacks.len() ==> !(#[trigger] callbacks[i] is Up) && !is_end(
                callbacks[i],
            ),
    ensures
        connected_after_all(connected, callbacks) == callbacks[last] is Up,
    decreases callbacks.len(),
{
    if last < callbacks.len() - 1 {
        the_last_telling_callback_decides(connected, callbacks.drop_last(), last);
    }
}

impl HeadlessHandler {
    /// The stride of the frame is that of its buffer and its height.
    pub open spec fn well_formed(self) -> bool {
        self.frame matches Some(latest) ==> latest.stride == stride_of(
            latest.data@.len(),
            latest.h as nat,
        )
    }

    /// A session of which nothing is known yet.
    pub fn new() -> (handler: Self)
        ensures
            handler.well_formed(),
            handler.frame is None,
            handler.displays@ == Seq::<DisplayInfo>::empty(),
            !handler.connected,
            handler.conn_info is None,
    {
        HeadlessHandler { frame: None, displays: Vec::new(), connected: false, conn_info: None }
    }

    /// The number of bytes per row of an image, from the raw buffer and the
    /// dimensions.
    pub fn calc_stride(rgba: &ImageRgb) -> (stride: usize)
        ensures
            stride == stride_of(rgba.raw@.len(), rgba.h as nat),
    {
        if rgba.h == 0 {
            return 0;
        }
        rgba.raw.len() / rgba.h
    }

    /// An image was decoded: it becomes the latest frame.
    pub fn on_rgba(&mut self, rgba: ImageRgb)
        ensures
            final(self).frame is Some,
            shows(final(self).frame->0, rgba),
            final(self).well_formed(),
            final(self).displays == old(self).displays,
            final(self).connected == old(self).connected,
            final(self).conn_info == old(self).conn_info,
    {
        let stride: usize = Self::calc_stride(&rgba);
        self.frame = Some(
            LatestFrame { data: rgba.raw, w: rgba.w, h: rgba.h, fmt: rgba.fmt, stride },
        );
    }

    fn connected_event(&self) -> (event: SdkEvent)
        ensures
            announces(event, route_of(self.conn_info)),
    {
        match &self.conn_info {
            Some(info) => SdkEvent::Connected {
                direct: info.0,
                secured: info.1,
                stream: info.2.clone(),
            },
            None => SdkEvent::Connected {
                direct: false,
                secured: true,
                stream: "unknown".to_owned(),
            },
        }
    }

    /// The session came up. Returns the event to push.
    pub fn on_connected(&mut self) -> (event: SdkEvent)
        ensures
            announces(event, route_of(old(self).conn_info)),
            final(self).connected == connected_after(old(self).connected, Callback::Up),
            final(self).frame == old(self).frame,
            final(self).displays == old(self).displays,
            final(self).conn_info == old(self).conn_info,
    {
        self.connected = true;
        self.connected_event()
    }

    /// The remote machine described itself. Returns the event to push.
    pub fn set_peer_info(&self) -> (event: SdkEvent)
        ensures
            announces(event, route_of(self.conn_info)),
    {
        self.connected_event()
    }

    /// The remote machine listed its displays.
    pub fn set_displays(&mut self, displays: Vec<DisplayInfo>)
        ensures
            final(self).displays == displays,
            final(self).frame == old(self).frame,
            final(self).connected == old(self).connected,
            final(self).conn_info == old(self).conn_info,
    {
        self.displays = displays;
    }

    /// The session was closed. Returns the event to push.
    pub fn close_success(&mut self) -> (event: SdkEvent)
        ensures
            ends(event, "closed"@),
            final(self).connected == connected_after(old(self).connected, Callback::Closed),
            final(self).frame == old(self).frame,
            final(self).displays == old(self).displays,
            final(self).conn_info == old(self).conn_info,
    {
        self.connected = false;
        SdkEvent::Disconnected { reason: "closed".to_owned() }
    }

    /// The session has a message for its user. An error ends the session, and
    /// then the event to push is returned. Any other message changes nothing.
    pub fn msgbox(&mut self, msgtype: &str, title: &str, text: &str) -> (event: Option<SdkEvent>)
        ensures
            msgtype@ == "error"@ <==> event is Some,
            event is Some ==> ends(event->0, title@ + ": "@ + text@),
            final(self).connected == connected_after(
                old(self).connected,
                (Callback::Message { msgtype: msgtype@ }),
            ),
            final(self).frame == old(self).frame,
            final(self).displays == old(self).displays,
            final(self).conn_info == old(self).conn_info,
    {
        if same_text(msgtype, "error") {
            self.connected = false;
            let reason: String = join(join(title, ": ").as_str(), text);
            Some(SdkEvent::Disconnected { reason })
        } else {
            None
        }
    }

    /// It became known how the session is connected.
    pub fn set_connection_type(&mut self, is_secured: bool, direct: bool, stream_type: &str)
        ensures
            final(self).conn_info is Some,
            (final(self).conn_info->0).0 == direct,
            (final(self).conn_info->0).1 == is_secured,
            (final(self).conn_info->0).2@ == stream_type@,
            route_of(final(self).conn_info) == (Route {
                direct,
                secured: is_secured,
                stream: stream_type@,
            }),
            final(self).frame == old(self).frame,
            final(self).displays == old(self).displays,
            final(self).connected == old(self).connected,
    {
        self.conn_info = Some((direct, is_secured, stream_type.to_owned()));
    }

    /// The pixels of the latest frame, if there is one.
    pub fn get_rgba(&self) -> (pixels: Option<&Vec<u8>>)
        ensures
            pixels == match self.frame {
                Some(latest) => Some(&latest.data),
                None => None,
            },
    {
        match &self.frame {
            Some(latest) => Some(&latest.data),
            None => None,
        }
    }
}

impl Default for HeadlessHandler {
    /// A session of which nothing is known yet.
    fn default() -> (handler: Self)
        ensures
            handler.well_formed(),
            handler.frame is None,
            handler.displays@ == Seq::<DisplayInfo>::empty(),
            !handler.connected,
            handler.conn_info is None,
    {
        HeadlessHandler::new()
    }
}

/// A screenshot shows the image that was decoded last: the message that goes
/// with the reply holds its dimensions, its format and all of its pixels.
/// Dimensions that need more than 32 bits are left out: the message has no room
/// for them.
pub proof fn screenshots_show_the_latest_image(frame: LatestFrame, image: ImageRgb)
    requires
        shows(frame, image),
        image.w <= u32::MAX,
        image.h <= u32::MAX,
        stride_of(image.raw@.len(), image.h as nat) <= u32::MAX,
    ensures
        screenshot_message(Some(frame)) is Some,
        le_number(screenshot_message(Some(frame))->0, 4) == image.w,
        le_number(screenshot_message(Some(frame))->0, 8) == image.h,
        le_number(screenshot_message(Some(frame))->0, 12) == format_number(image.fmt),
        le_number(screenshot_message(Some(frame))->0, 16) == stride_of(
            image.raw@.len(),
            image.h as nat,
        ),
        screenshot_message(Some(frame))->0.skip(20) == image.raw@,
{
    frame_message_gives_back_the_frame(frame);
}

} // verus!

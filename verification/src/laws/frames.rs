//! What becomes of the images and the callbacks of a session.

use vstd::prelude::*;

use crate::event::SdkEvent;
use crate::frame::{encode_frame, format_code, format_index, frame_message_opens_with_rsdk};
use crate::frame::{le_number, ImageFormat, ImageRgb, LatestFrame};
use crate::handler::{DisplayInfo, HeadlessHandler};
use crate::laws::replies::{screenshot_text, screenshots_describe_the_frame};
use crate::reply::{handle_screenshot, Reply};

verus! {

/// The bytes carry the frame: `RSDK`, the low 32 bits of the width and the
/// height, the number of the format, the low 32 bits of the stride, and the
/// pixels as they are.
pub open spec fn carries(bytes: Seq<u8>, frame: LatestFrame) -> bool {
    &&& bytes.len() == 20 + frame.data@.len()
    &&& bytes[0] == 0x52 && bytes[1] == 0x53 && bytes[2] == 0x44 && bytes[3] == 0x4B
    &&& le_number(bytes, 4) == frame.w as int % 0x1_0000_0000
    &&& le_number(bytes, 8) == frame.h as int % 0x1_0000_0000
    &&& le_number(bytes, 12) == match frame.fmt {
        ImageFormat::ABGR => 0int,
        ImageFormat::ARGB => 1int,
        ImageFormat::Raw => 2int,
    }
    &&& le_number(bytes, 16) == frame.stride as int % 0x1_0000_0000
    &&& forall|i: int| 0 <= i < frame.data@.len() ==> bytes[20 + i] == #[trigger] frame.data@[i]
}

/// The number of bytes per row that a buffer of this length has room for.
pub open spec fn is_stride(stride: int, len: int, h: int) -> bool {
    if h == 0 {
        stride == 0
    } else {
        stride * h <= len < (stride + 1) * h
    }
}

proof fn lemma_stride(len: nat, h: nat)
    ensures
        is_stride(crate::frame::stride_of(len, h) as int, len as int, h as int),
{
    if h > 0 {
        crate::frame::rows_fit_the_buffer(len, h);
    }
}

/// A frame message carries the frame, whatever its dimensions.
pub proof fn messages_carry_the_frame(frame: &LatestFrame, message: Vec<u8>)
    requires
        call_ensures(encode_frame, (frame,), message),
    ensures
        carries(message@, *frame),
{
    lemma_carries(*frame);
}

/// Each format has its own word and its own number.
pub proof fn formats_have_their_words_and_numbers(fmt: ImageFormat, word: &'static str, number: u32)
    requires
        call_ensures(format_code, (fmt,), word),
        call_ensures(format_index, (fmt,), number),
    ensures
        fmt is ABGR ==> word@ == "abgr"@ && number == 0,
        fmt is ARGB ==> word@ == "argb"@ && number == 1,
        fmt is Raw ==> word@ == "rgb"@ && number == 2,
{
}

/// The stride is the number of whole bytes that each row has room for.
pub proof fn strides_divide_the_buffer(image: &ImageRgb, stride: usize)
    requires
        call_ensures(HeadlessHandler::calc_stride, (image,), stride),
    ensures
        is_stride(stride as int, image.raw@.len() as int, image.h as int),
{
    lemma_stride(image.raw@.len(), image.h as nat);
}

/// The message that goes with a screenshot carries the frame that the reply
/// describes.
pub proof fn screenshots_carry_the_frame(id: u64, frame: &Option<LatestFrame>, reply: Reply)
    requires
        call_ensures(handle_screenshot, (id, frame), reply),
    ensures
        screenshot_text(reply.text@, id, *frame),
        match *frame {
            Some(latest) => reply.frame is Some && carries((reply.frame->0)@, latest),
            None => reply.frame is None,
        },
{
    screenshots_describe_the_frame(id, frame, reply);
    match *frame {
        Some(latest) => {
            lemma_carries(latest);
        },
        None => {},
    }
}

/// The message of a frame carries it.
#[verifier::spinoff_prover]
pub proof fn lemma_carries(frame: LatestFrame)
    ensures
        carries(crate::frame::frame_message(frame), frame),
{
    let message = crate::frame::frame_message(frame);
    crate::frame::lemma_header(frame);
    frame_message_opens_with_rsdk(frame);
    let letters = message.take(4);
    assert(letters[0] == message[0]);
    assert(letters[1] == message[1]);
    assert(letters[2] == message[2]);
    assert(letters[3] == message[3]);
    assert forall|i: int| 0 <= i < frame.data@.len() implies message[20 + i]
        == #[trigger] frame.data@[i] by {
        assert(message.skip(20)[i] == message[20 + i]);
    }
}

/// An image that was decoded is what the next screenshot shows: its
/// dimensions, its format and all of its pixels. Nothing else is changed.
pub proof fn images_are_what_screenshots_show(
    handler: &mut HeadlessHandler,
    image: ImageRgb,
    id: u64,
    reply: Reply,
)
    requires
        call_ensures(HeadlessHandler::on_rgba, (handler, image), ()),
        call_ensures(handle_screenshot, (id, &final(handler).frame), reply),
    ensures
        ({
            let shown = final(handler).frame->0;
            &&& final(handler).frame is Some
            &&& shown.data@ == image.raw@
            &&& shown.w == image.w
            &&& shown.h == image.h
            &&& shown.fmt == image.fmt
            &&& is_stride(shown.stride as int, image.raw@.len() as int, image.h as int)
            &&& screenshot_text(reply.text@, id, Some(shown))
            &&& reply.frame is Some
            &&& carries((reply.frame->0)@, shown)
        }),
        final(handler).displays == old(handler).displays,
        final(handler).connected == old(handler).connected,
        final(handler).conn_info == old(handler).conn_info,
{
    lemma_stride(image.raw@.len(), image.h as nat);
    screenshots_carry_the_frame(id, &final(handler).frame, reply);
}

/// The session coming up is noted and announced, by the route that is known,
/// or else as relayed and secured over an unknown stream.
pub proof fn coming_up_is_announced(handler: &mut HeadlessHandler, event: SdkEvent)
    requires
        call_ensures(HeadlessHandler::on_connected, (handler,), event),
    ensures
        final(handler).connected,
        event is Connected,
        match old(handler).conn_info {
            Some(info) => event->direct == info.0 && event->secured == info.1 && event->stream@
                == info.2@,
            None => !event->direct && event->secured && event->stream@ == "unknown"@,
        },
        final(handler).frame == old(handler).frame,
        final(handler).displays == old(handler).displays,
        final(handler).conn_info == old(handler).conn_info,
{
}

/// What the remote machine says of itself is announced in the same way.
pub proof fn peers_are_announced(handler: &HeadlessHandler, event: SdkEvent)
    requires
        call_ensures(HeadlessHandler::set_peer_info, (handler,), event),
    ensures
        event is Connected,
        match handler.conn_info {
            Some(info) => event->direct == info.0 && event->secured == info.1 && event->stream@
                == info.2@,
            None => !event->direct && event->secured && event->stream@ == "unknown"@,
        },
{
}

/// Once it is known how the session is connected, that is what is announced.
pub proof fn known_routes_are_announced(
    handler: &mut HeadlessHandler,
    is_secured: bool,
    direct: bool,
    stream_type: &str,
    later: &mut HeadlessHandler,
    event: SdkEvent,
)
    requires
        call_ensures(
            HeadlessHandler::set_connection_type,
            (handler, is_secured, direct, stream_type),
            (),
        ),
        *old(later) == *final(handler),
        call_ensures(HeadlessHandler::on_connected, (later,), event),
    ensures
        event is Connected,
        event->secured == is_secured,
        event->direct == direct,
        event->stream@ == stream_type@,
        final(handler).conn_info is Some,
        (final(handler).conn_info->0).0 == direct,
        (final(handler).conn_info->0).1 == is_secured,
        (final(handler).conn_info->0).2@ == stream_type@,
        final(handler).frame == old(handler).frame,
        final(handler).displays == old(handler).displays,
        final(handler).connected == old(handler).connected,
{
}

/// Closing the session is noted, and told as such.
pub proof fn closing_is_told(handler: &mut HeadlessHandler, event: SdkEvent)
    requires
        call_ensures(HeadlessHandler::close_success, (handler,), event),
    ensures
        !final(handler).connected,
        event is Disconnected,
        event->reason@ == "closed"@,
        final(handler).frame == old(handler).frame,
        final(handler).displays == old(handler).displays,
        final(handler).conn_info == old(handler).conn_info,
{
}

/// An error ends the session, and is told by its title and its text. Any other
/// message leaves everything as it was, and nothing is told.
pub proof fn only_errors_end_the_session(
    handler: &mut HeadlessHandler,
    msgtype: &str,
    title: &str,
    text: &str,
    event: Option<SdkEvent>,
)
    requires
        call_ensures(HeadlessHandler::msgbox, (handler, msgtype, title, text), event),
    ensures
        msgtype@ == "error"@ ==> {
            &&& !final(handler).connected
            &&& event is Some
            &&& event->0 is Disconnected
            &&& (event->0)->reason@ == title@ + ": "@ + text@
        },
        msgtype@ != "error"@ ==> event is None && final(handler).connected
            == old(handler).connected,
        final(handler).frame == old(handler).frame,
        final(handler).displays == old(handler).displays,
        final(handler).conn_info == old(handler).conn_info,
{
}

/// The displays are those that were listed last.
pub proof fn displays_are_those_listed_last(
    handler: &mut HeadlessHandler,
    displays: Vec<DisplayInfo>,
)
    requires
        call_ensures(HeadlessHandler::set_displays, (handler, displays), ()),
    ensures
        final(handler).displays@ == displays@,
        final(handler).frame == old(handler).frame,
        final(handler).connected == old(handler).connected,
        final(handler).conn_info == old(handler).conn_info,
{
}

/// Until an image was decoded there are no pixels, and then they are its own.
pub proof fn pixels_are_those_of_the_latest_image(
    handler: &mut HeadlessHandler,
    image: ImageRgb,
    later: &HeadlessHandler,
    pixels: Option<&Vec<u8>>,
    fresh: &HeadlessHandler,
    none: Option<&Vec<u8>>,
)
    requires
        call_ensures(HeadlessHandler::on_rgba, (handler, image), ()),
        *later == *final(handler),
        call_ensures(HeadlessHandler::get_rgba, (later,), pixels),
        call_ensures(HeadlessHandler::new, (), *fresh),
        call_ensures(HeadlessHandler::get_rgba, (fresh,), none),
    ensures
        pixels is Some,
        (pixels->0)@ == image.raw@,
        none is None,
        fresh.displays@.len() == 0,
        !fresh.connected,
        fresh.conn_info is None,
{
}

} // verus!

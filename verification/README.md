# headless_sdk

A UI-free remote desktop client that scripts drive over a WebSocket or a pipe.

`src/` is the verified core: what each command asks of the remote session, what
it is answered, and what goes on the wire. `app/` is the program around it: the
WebSocket server, the pipe, and the RustDesk session that the core decides
about. `tests/` runs the core.

## Commands

JSON objects, one to a WebSocket text message or one to a line of the pipe:

```json
{"id": 1, "cmd": "connect", "peer_id": "123456789", "password": "xxx"}
{"id": 2, "cmd": "disconnect"}
{"id": 3, "cmd": "screenshot"}
{"id": 4, "cmd": "mouse", "action": "click", "button": "left"}
{"id": 5, "cmd": "keyboard", "action": "key_down", "key": "W"}
{"id": 6, "cmd": "key_sequence", "keys_seq": [
  {"action": "key_down", "key": "MetaLeft", "delay_ms": 50},
  {"action": "key_click", "key": "2", "delay_ms": 80}
]}
{"id": 7, "cmd": "set_quality", "quality": "custom", "value": 80}
{"id": 8, "cmd": "set_fps", "fps": 60}
{"id": 9, "cmd": "set_resolution", "display": 0, "width": 1920, "height": 1080}
{"id": 10, "cmd": "get_id"}
{"id": 11, "cmd": "set_id", "peer_id": "myname", "check_server": true}
{"id": 12, "cmd": "status"}
{"id": 13, "cmd": "ping"}
```

## Replies

Every reply is a JSON object on one line. It carries the `id` of its command,
and `ok`; a refusal gives its reason under `error`.

```json
{"id": 1, "ok": true, "state": "connecting"}
{"id": 3, "ok": true, "has_frame": true, "w": 1920, "h": 1080, "format": "abgr", "stride": 7680, "fmt_code": 0}
{"id": 10, "ok": true, "peer_id": "37513141"}
{"id": 12, "ok": true, "connected": true, "has_session": true}
{"id": 4, "ok": false, "error": "not connected"}
```

A frame goes out as a binary message, before the reply that describes it:
five little-endian 32-bit numbers (the magic number `0x4B445352`, which spells
`RSDK`, the width, the height, the format code and the stride), and then the raw
pixels.

## Events

JSON objects without an `id`:

```json
{"event": "connected", "direct": true, "secured": true, "stream": "TCP"}
{"event": "disconnected", "reason": "connection lost"}
{"event": "error", "msg": "failed to connect"}
```

## Modules

| module | what it is about |
| --- | --- |
| `args` | the arguments of the program |
| `command`, `dispatch` | commands, and what is done about each |
| `mouse`, `keyboard`, `scancode`, `video` | commands to the remote session |
| `action` | what is done to the session |
| `session`, `identity` | opening and closing the session; the local peer id |
| `handler`, `event`, `frame` | what is known of the session |
| `reply`, `json`, `text` | texts |
| `pipe`, `websocket` | the two ways in and out |

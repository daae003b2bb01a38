# bubble_meet

The verified core of a WebRTC selective-forwarding video-call server with
live speech transcription.

- `src/` — the library, verified with Verus:
  - `ids`, `participant`, `room`, `room_directory`: participant identities,
    the participants of a room, and the rooms of the server;
  - `messages`, `models`, `signaling_messages`, `media`: signaling messages
    and the plain values of media sessions they carry;
  - `replayer`, `sfu`, `webrtc_factory`: which source track is replayed to
    whom, what joining and leaving change, and the codec configuration;
  - `audio`, `interceptor`, `triton_api`: the audio buffer, the index work of
    decoding, the transcription schedule, and the requests to and answers
    from the inference server;
  - `mel_filters`: which mel filter bank a speech model's configuration needs.
- `app/` — the server around it: WebSockets, peer connections, Opus
  decoding, the float arithmetic on samples, and the inference transport.
- `tests/` — tests of the library on concrete values.

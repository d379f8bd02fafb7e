# remote_computer

A small server that lets a phone or browser control a computer: launch
applications and web pages, change the audio volume, read system information,
shut down or reboot (guarded by a password), over websockets and MQTT.

- `src/` is the verified library (Verus): checking requests, deciding what to
  do about each websocket and MQTT message, the replies sent back, and the text
  handling behind launching (templates, joining parameters, decimal output).
- `app/` is the program around it: the axum web server and websocket loops, the
  MQTT client, the audio device, `sysinfo`, spawning processes, and the serde
  copies of the library's types.
- `tests/` exercises the library on concrete values.

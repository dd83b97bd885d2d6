# uplink

Connects a device to an MQTT broker. Applications on the device send their data as lines of JSON
over TCP; it is batched per stream and published, and kept on disk while the network is slow or
gone. Actions from the cloud are handed to the applications, whose answers go back.

`src/` decides: what is sent, stored, dropped and reported, and when. It is verified with
[Verus](https://github.com/verus-lang/verus).

- `serializer`: what becomes of collected data in normal, slow, catchup and crash mode.
- `tcpjson`: the bridge to the applications.
- `stream`: how points become batches.
- `codec`, `packet`: MQTT packets, encoded by `rumqttc`.
- `uplink`, `console`, `config`, `package`, `text`: set-up, console output and shared values.

The modules `laws` under `serializer` and `tcpjson`, and the end of `stream`, state what holds of
whole runs.

`app/` acts: it owns channels, sockets, timers and files, performs what the library asks for, and
reports what came of it.

Testing with netcat:

```
nc localhost 5555
{ "stream": "can", "sequence": 1, "timestamp": 12345, "data": 100 }
```

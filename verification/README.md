# pingora_mqtt

Connection handling for the HTTP and MQTT services of a proxy server,
written in Verus.

`src/` is the verified library:

- `apps/connection.rs` – what is done with an accepted connection: peek for
  the HTTP/2 preface when h2c is configured, choose HTTP/1.1 or HTTP/2, and
  hand out HTTP/2 streams until the client closes or the server shuts down.
- `apps/session.rs` – one request of a session served by an application
  that maps requests to responses.
- `apps/server_session.rs` – one request of a session served by an HTTP
  server whose modules filter the request header, the response header and
  the response body, in order.
- `apps/http_app.rs` – server options, the HTTP/2 preface, `HttpServer`.
- `modules/http.rs` – the modules of a server, kept largest order first.
- `connectors/`, `protocols/mqtt/`, `proxy.rs`, `services.rs`, `server.rs` –
  the MQTT connector, sessions, proxy service and the configuration it reads.

The decisions stand in `src/` as drivers: each takes what the last step
gave and says what to do next, and its contract is a transition function
over which the laws of the library are proved. `app/` holds the
asynchronous loops that await the connection, the application and the
modules, and the application traits.

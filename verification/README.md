# http_app

Two ESP32-C3 boards: the client measures temperature, humidity and pressure
with a BME280, a button selects which kind is posted every five seconds as
JSON; the server shows each posted value on an SSD1331 display and serves a
page at `/`.

- `src/` is the verified library (Verus):
  - `sensor`: the selectable kinds and their cycle, the value posted for the
    selected kind, the text shown for a value;
  - `page`: the HTML page served at `/`;
  - `request`: the plain HTTP GET request of the TCP example;
  - `wifi`: the channel choice and the decisions of joining a Wi-Fi network
    as a station, as a state machine;
  - `lock`: the semaphore protocol of the mutex that interrupts can lock, as
    state machines for its life and for one lock call.
- `app/` is ordinary Rust for the boards: the ESP-IDF drivers, HTTP, JSON,
  the display, the FreeRTOS calls, and the floating-point formatting. It
  performs the actions the library decides and reports the results back.
- `tests/` runs the library on concrete values.

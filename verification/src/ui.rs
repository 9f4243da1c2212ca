use crate::deck::{crear_baraja, Carta};
use crate::logic::{
    cartas_en_juego_validas, determinar_ganador, jugar_turno, lemma_mesa_robo_primera,
    lemma_mesa_robo_segunda, mesa_valida, mismo_jugador, repartir_cartas,
};
use crate::player::{
    lemma_ajustar_piso, lemma_mano_dos_cartas, lemma_partes_mesa, lemma_suma_no_negativa,
    lemma_suma_push, num_ases, puntaje_mano, suma_bruta, Jugador,
};
use vstd::prelude::*;

verus! {

/// Los cuatro estados del juego.
#[derive(Debug, Clone, Copy, PartialEq, Eq, Structural)]
pub enum GameState {
    Inicio,
    TurnoJugador,
    TurnoBanca,
    FinJuego,
}

impl Default for GameState {
    /// El juego arranca en la pantalla de inicio.
    fn default() -> (r: GameState)
        ensures
            r == GameState::Inicio,
    {
        GameState::Inicio
    }
}

/// Una pulsacion de teclado ya reducida a lo que distingue el juego:
/// la tecla de confirmar, una letra, o cualquier otra cosa.
#[derive(Debug, Clone, Copy)]
pub enum Tecla {
    Intro,
    Letra(char),
    Otra,
}

/// Teclas que confirman en la pantalla de inicio.
pub open spec fn es_confirmar(t: Tecla) -> bool {
    t == Tecla::Intro || t == Tecla::Letra(' ')
}

/// Teclas con las que el jugador pide carta.
pub open spec fn es_pedir(t: Tecla) -> bool {
    t == Tecla::Intro || t == Tecla::Letra('1') || t == Tecla::Letra('p')
}

/// Teclas con las que el jugador se planta.
pub open spec fn es_plantarse(t: Tecla) -> bool {
    t == Tecla::Letra('2') || t == Tecla::Letra('s')
}

/// Teclas que empiezan otra partida desde el final de una.
pub open spec fn es_nueva_partida(t: Tecla) -> bool {
    t == Tecla::Intro || t == Tecla::Letra('n')
}

/// Tecla con la que se sale del juego.
pub open spec fn es_salir(t: Tecla) -> bool {
    t == Tecla::Letra('q')
}

/// Estado de la vista: estado del juego, mensaje, opciones del pie,
/// cursor reservado y si se ensena toda la mano de la banca.
pub struct AppState {
    pub estado: GameState,
    pub mensaje: String,
    pub opciones: Vec<String>,
    pub seleccion: usize,
    pub mostrar_todas_cartas_banca: bool,
}

/// Las opciones del turno del jugador: pedir carta o plantarse.
pub open spec fn opciones_turno(o: Seq<String>) -> bool {
    o.len() == 2 && o[0]@ == "Pedir carta"@ && o[1]@ == "Plantarse"@
}

/// Las opciones del final de partida: otra partida o salir.
pub open spec fn opciones_fin(o: Seq<String>) -> bool {
    o.len() == 2 && o[0]@ == "Nueva partida"@ && o[1]@ == "Salir"@
}

/// Los dos estados de vista son iguales campo a campo.
pub open spec fn mismo_app(a: AppState, b: AppState) -> bool {
    &&& b.estado == a.estado
    &&& b.mensaje@ == a.mensaje@
    &&& b.opciones@ == a.opciones@
    &&& b.seleccion == a.seleccion
    &&& b.mostrar_todas_cartas_banca == a.mostrar_todas_cartas_banca
}

impl Default for AppState {
    /// Vista vacia: pantalla de inicio sin mensaje ni opciones.
    fn default() -> (r: AppState)
        ensures
            r.estado == GameState::Inicio,
            r.mensaje@.len() == 0,
            r.opciones@.len() == 0,
            r.seleccion == 0,
            !r.mostrar_todas_cartas_banca,
    {
        AppState {
            estado: GameState::default(),
            mensaje: String::new(),
            opciones: Vec::new(),
            seleccion: 0,
            mostrar_todas_cartas_banca: false,
        }
    }
}

impl AppState {
    /// Vista recien creada: saludo de bienvenida y opciones del turno.
    pub fn new() -> (r: AppState)
        ensures
            r.estado == GameState::Inicio,
            r.mensaje@ == "¡Bienvenido a RatJack!"@,
            opciones_turno(r.opciones@),
            r.seleccion == 0,
            !r.mostrar_todas_cartas_banca,
    {
        let mut opciones: Vec<String> = Vec::new();
        opciones.push("Pedir carta".to_string());
        opciones.push("Plantarse".to_string());
        AppState {
            estado: GameState::Inicio,
            mensaje: "¡Bienvenido a RatJack!".to_string(),
            opciones,
            seleccion: 0,
            mostrar_todas_cartas_banca: false,
        }
    }

    /// Pone las opciones y la vista de la banca que tocan al estado
    /// actual y devuelve el cursor al principio.
    pub fn actualizar_opciones(&mut self)
        ensures
            final(self).estado == old(self).estado,
            final(self).mensaje@ == old(self).mensaje@,
            final(self).seleccion == 0,
            old(self).estado == GameState::TurnoJugador ==> opciones_turno(final(self).opciones@)
                && !final(self).mostrar_todas_cartas_banca,
            old(self).estado == GameState::FinJuego ==> opciones_fin(final(self).opciones@)
                && final(self).mostrar_todas_cartas_banca,
            old(self).estado == GameState::Inicio || old(self).estado == GameState::TurnoBanca
                ==> final(self).opciones@ == old(self).opciones@
                && final(self).mostrar_todas_cartas_banca == old(self).mostrar_todas_cartas_banca,
    {
        match self.estado {
            GameState::TurnoJugador => {
                let mut opciones: Vec<String> = Vec::new();
                opciones.push("Pedir carta".to_string());
                opciones.push("Plantarse".to_string());
                self.opciones = opciones;
                self.mostrar_todas_cartas_banca = false;
            },
            GameState::FinJuego => {
                let mut opciones: Vec<String> = Vec::new();
                opciones.push("Nueva partida".to_string());
                opciones.push("Salir".to_string());
                self.opciones = opciones;
                self.mostrar_todas_cartas_banca = true;
            },
            _ => {},
        }
        self.seleccion = 0;
    }
}

/// La partida esta bien formada: mesa sin cartas repetidas, puntajes
/// en cache fieles a las manos y sumas dentro de lo representable.
pub open spec fn partida_valida(jugador: Jugador, banca: Jugador, baraja: Seq<Carta>) -> bool {
    &&& mesa_valida(jugador, banca, baraja)
    &&& jugador.puntos as int == puntaje_mano(jugador.mano@)
    &&& banca.puntos as int == puntaje_mano(banca.mano@)
    &&& suma_bruta(jugador.mano@) <= 244
    &&& suma_bruta(banca.mano@) <= 255
}

/// Jugadas de la banca: roba mientras su puntaje no llegue a 17 y
/// queden cartas, y devuelve la mano y la baraja que quedan.
pub open spec fn banca_juega(mano: Seq<Carta>, baraja: Seq<Carta>) -> (Seq<Carta>, Seq<Carta>)
    decreases baraja.len(),
{
    if puntaje_mano(mano) < 17 && baraja.len() > 0 {
        banca_juega(mano.push(baraja.last()), baraja.drop_last())
    } else {
        (mano, baraja)
    }
}

/// Deja la mesa lista para otra partida: manos vacias, puntajes a
/// cero, baraja nueva barajada y reparto inicial de dos cartas por
/// cabeza. Los contadores de partidas ganadas no se tocan.
pub fn reiniciar_partida(jugador: &mut Jugador, banca: &mut Jugador, baraja: &mut Vec<Carta>)
    ensures
        final(jugador).mano@.len() == 2,
        final(banca).mano@.len() == 2,
        final(baraja)@.len() == 48,
        partida_valida(*final(jugador), *final(banca), final(baraja)@),
        final(jugador).puntos <= 21,
        final(banca).puntos <= 21,
        suma_bruta(final(banca).mano@) <= 22,
        final(jugador).nombre@ == old(jugador).nombre@,
        final(banca).nombre@ == old(banca).nombre@,
        final(jugador).partidas_ganadas == old(jugador).partidas_ganadas,
        final(banca).partidas_ganadas == old(banca).partidas_ganadas,
{
    jugador.mano.clear();
    banca.mano.clear();
    jugador.puntos = 0;
    banca.puntos = 0;
    *baraja = crear_baraja();
    let ghost d = baraja@;
    let ghost vacio = Seq::<Carta>::empty();
    proof {
        assert(vacio + vacio + d =~= d);
        assert(cartas_en_juego_validas(vacio + vacio + d));
    }
    repartir_cartas(jugador, banca, baraja);
    proof {
        lemma_mesa_robo_primera(vacio, vacio, d);
        assert(d.drop_last() =~= d.take(51));
        assert(vacio.push(d.last()) + vacio + d.drop_last() =~= vacio.push(d[51]) + vacio + d.take(
            51,
        ));
        lemma_mesa_robo_segunda(vacio.push(d[51]), vacio, d.take(51));
        assert(d.take(51).last() == d[50]);
        assert(d.take(51).drop_last() =~= d.take(50));
        assert(vacio.push(d[51]) + vacio.push(d.take(51).last()) + d.take(51).drop_last()
            =~= vacio.push(d[51]) + vacio.push(d[50]) + d.take(50));
        lemma_mesa_robo_primera(vacio.push(d[51]), vacio.push(d[50]), d.take(50));
        assert(d.take(50).last() == d[49]);
        assert(d.take(50).drop_last() =~= d.take(49));
        assert(vacio.push(d[51]).push(d.take(50).last()) + vacio.push(d[50]) + d.take(
            50,
        ).drop_last() =~= vacio.push(d[51]).push(d[49]) + vacio.push(d[50]) + d.take(49));
        lemma_mesa_robo_segunda(vacio.push(d[51]).push(d[49]), vacio.push(d[50]), d.take(49));
        assert(d.take(49).last() == d[48]);
        assert(d.take(49).drop_last() =~= d.take(48));
        assert(vacio.push(d[51]).push(d[49]) + vacio.push(d[50]).push(d.take(49).last()) + d.take(
            49,
        ).drop_last() =~= vacio.push(d[51]).push(d[49]) + vacio.push(d[50]).push(d[48]) + d.take(
            48,
        ));
        assert(jugador.mano@ == vacio.push(d[51]).push(d[49]));
        assert(banca.mano@ == vacio.push(d[50]).push(d[48]));
        assert(baraja@ == d.take(48));
        assert(cartas_en_juego_validas(jugador.mano@ + banca.mano@ + baraja@));
        lemma_partes_mesa(jugador.mano@, banca.mano@, baraja@);
        lemma_mano_dos_cartas(jugador.mano@);
        lemma_mano_dos_cartas(banca.mano@);
    }
}

/// Un paso de la maquina de estados del juego: recibe la tecla
/// pulsada, aplica la transicion que toca al estado actual y deja la
/// vista, las manos y la baraja como corresponde. Devuelve si hay que
/// salir del juego.
///
/// La banca juega entera (roba hasta llegar a 17, mientras quede
/// baraja) a la primera tecla recibida en su turno, como un paso mas
/// de la maquina; con la baraja agotada deja de robar, pues el robo ya
/// no haria nada.
pub fn manejar_evento(
    app: &mut AppState,
    jugador: &mut Jugador,
    banca: &mut Jugador,
    baraja: &mut Vec<Carta>,
    tecla: Tecla,
) -> (salir: bool)
    requires
        partida_valida(*old(jugador), *old(banca), old(baraja)@),
        old(app).estado == GameState::Inicio || old(app).estado == GameState::TurnoJugador ==> old(jugador).puntos <= 21,
        old(app).estado == GameState::TurnoJugador || old(app).estado == GameState::TurnoBanca
            ==> old(jugador).partidas_ganadas < u32::MAX && old(banca).partidas_ganadas
            < u32::MAX,
    ensures
        partida_valida(*final(jugador), *final(banca), final(baraja)@),
        final(app).estado == GameState::TurnoJugador ==> final(jugador).puntos <= 21,
        final(jugador).nombre@ == old(jugador).nombre@,
        final(banca).nombre@ == old(banca).nombre@,
        final(jugador).partidas_ganadas >= old(jugador).partidas_ganadas,
        final(banca).partidas_ganadas >= old(banca).partidas_ganadas,
        old(app).estado == GameState::Inicio ==> {
            &&& mismo_jugador(*old(jugador), *final(jugador))
            &&& mismo_jugador(*old(banca), *final(banca))
            &&& final(baraja)@ == old(baraja)@
            &&& salir == es_salir(tecla)
            &&& es_confirmar(tecla) ==> {
                &&& final(app).estado == GameState::TurnoJugador
                &&& opciones_turno(final(app).opciones@)
                &&& !final(app).mostrar_todas_cartas_banca
                &&& final(app).seleccion == 0
                &&& final(app).mensaje@ == old(app).mensaje@
            }
            &&& !es_confirmar(tecla) ==> mismo_app(*old(app), *final(app))
        },
        old(app).estado == GameState::TurnoJugador && es_pedir(tecla) ==> {
            &&& old(baraja)@.len() > 0 ==> final(jugador).mano@ == old(jugador).mano@.push(
                old(baraja)@.last(),
            ) && final(baraja)@ == old(baraja)@.drop_last()
            &&& old(baraja)@.len() == 0 ==> final(jugador).mano@ == old(jugador).mano@ && final(baraja)@ == old(baraja)@
            &&& final(jugador).puntos as int == puntaje_mano(final(jugador).mano@)
            &&& final(jugador).partidas_ganadas == old(jugador).partidas_ganadas
            &&& final(banca).mano@ == old(banca).mano@
            &&& final(banca).puntos == old(banca).puntos
            &&& !salir
            &&& final(jugador).puntos > 21 ==> {
                &&& final(app).estado == GameState::FinJuego
                &&& final(app).mensaje@ == "Te has pasado. ¡La banca gana!"@
                &&& opciones_fin(final(app).opciones@)
                &&& final(app).mostrar_todas_cartas_banca
                &&& final(app).seleccion == 0
                &&& final(banca).partidas_ganadas == old(banca).partidas_ganadas + 1
            }
            &&& final(jugador).puntos <= 21 ==> mismo_app(*old(app), *final(app)) && final(banca).partidas_ganadas == old(banca).partidas_ganadas
        },
        old(app).estado == GameState::TurnoJugador && es_plantarse(tecla) ==> {
            &&& mismo_jugador(*old(jugador), *final(jugador))
            &&& mismo_jugador(*old(banca), *final(banca))
            &&& final(baraja)@ == old(baraja)@
            &&& final(app).estado == GameState::TurnoBanca
            &&& final(app).mensaje@ == "Turno de la banca"@
            &&& final(app).opciones@ == old(app).opciones@
            &&& final(app).seleccion == old(app).seleccion
            &&& final(app).mostrar_todas_cartas_banca == old(app).mostrar_todas_cartas_banca
            &&& !salir
        },
        old(app).estado == GameState::TurnoJugador && !es_pedir(tecla) && !es_plantarse(tecla)
            ==> {
            &&& mismo_jugador(*old(jugador), *final(jugador))
            &&& mismo_jugador(*old(banca), *final(banca))
            &&& final(baraja)@ == old(baraja)@
            &&& mismo_app(*old(app), *final(app))
            &&& salir == es_salir(tecla)
        },
        old(app).estado == GameState::TurnoBanca ==> {
            &&& final(jugador).mano@ == old(jugador).mano@
            &&& final(jugador).puntos == old(jugador).puntos
            &&& (final(banca).mano@, final(baraja)@) == banca_juega(
                old(banca).mano@,
                old(baraja)@,
            )
            &&& final(banca).puntos as int == puntaje_mano(final(banca).mano@)
            &&& puntaje_mano(final(banca).mano@) >= 17 || final(baraja)@.len() == 0
            &&& final(app).estado == GameState::FinJuego
            &&& opciones_fin(final(app).opciones@)
            &&& final(app).mostrar_todas_cartas_banca
            &&& final(app).seleccion == 0
            &&& salir == es_salir(tecla)
            &&& ({
                let pj = old(jugador).puntos;
                let pb = final(banca).puntos;
                if pj > 21 {
                    &&& final(app).mensaje@ == "Te has pasado. ¡La banca gana!"@
                    &&& final(banca).partidas_ganadas == old(banca).partidas_ganadas + 1
                    &&& final(jugador).partidas_ganadas == old(jugador).partidas_ganadas
                } else if pb > 21 {
                    &&& final(app).mensaje@ == "La banca se ha pasado. ¡Has ganado!"@
                    &&& final(jugador).partidas_ganadas == old(jugador).partidas_ganadas + 1
                    &&& final(banca).partidas_ganadas == old(banca).partidas_ganadas
                } else if pj > pb {
                    &&& final(app).mensaje@ == "¡Has ganado!"@
                    &&& final(jugador).partidas_ganadas == old(jugador).partidas_ganadas + 1
                    &&& final(banca).partidas_ganadas == old(banca).partidas_ganadas
                } else if pb > pj {
                    &&& final(app).mensaje@ == "La banca gana."@
                    &&& final(banca).partidas_ganadas == old(banca).partidas_ganadas + 1
                    &&& final(jugador).partidas_ganadas == old(jugador).partidas_ganadas
                } else {
                    &&& final(app).mensaje@ == "Empate."@
                    &&& final(jugador).partidas_ganadas == old(jugador).partidas_ganadas
                    &&& final(banca).partidas_ganadas == old(banca).partidas_ganadas
                }
            })
        },
        old(app).estado == GameState::FinJuego ==> {
            &&& salir == es_salir(tecla)
            &&& es_nueva_partida(tecla) ==> {
                &&& final(jugador).mano@.len() == 2
                &&& final(banca).mano@.len() == 2
                &&& final(baraja)@.len() == 48
                &&& final(jugador).puntos <= 21
                &&& final(banca).puntos <= 21
                &&& final(jugador).partidas_ganadas == old(jugador).partidas_ganadas
                &&& final(banca).partidas_ganadas == old(banca).partidas_ganadas
                &&& final(app).estado == GameState::TurnoJugador
                &&& final(app).mensaje@ == "¡Nueva partida!"@
                &&& opciones_turno(final(app).opciones@)
                &&& !final(app).mostrar_todas_cartas_banca
                &&& final(app).seleccion == 0
            }
            &&& !es_nueva_partida(tecla) ==> {
                &&& mismo_jugador(*old(jugador), *final(jugador))
                &&& mismo_jugador(*old(banca), *final(banca))
                &&& final(baraja)@ == old(baraja)@
                &&& mismo_app(*old(app), *final(app))
            }
        },
{
    match app.estado {
        GameState::Inicio => {
            if matches!(tecla, Tecla::Intro | Tecla::Letra(' ')) {
                app.estado = GameState::TurnoJugador;
                app.actualizar_opciones();
                false
            } else {
                matches!(tecla, Tecla::Letra('q'))
            }
        },
        GameState::TurnoJugador => {
            if matches!(tecla, Tecla::Intro | Tecla::Letra('1') | Tecla::Letra('p')) {
                proof {
                    lemma_partes_mesa(jugador.mano@, banca.mano@, baraja@);
                    lemma_suma_no_negativa(jugador.mano@);
                    lemma_ajustar_piso(suma_bruta(jugador.mano@), num_ases(jugador.mano@));
                    if baraja@.len() > 0 {
                        lemma_suma_push(jugador.mano@, baraja@.last());
                        lemma_mesa_robo_primera(jugador.mano@, banca.mano@, baraja@);
                    }
                }
                jugar_turno(jugador, baraja, true);
                if jugador.puntos > 21 {
                    app.mensaje = determinar_ganador(jugador, banca);
                    app.estado = GameState::FinJuego;
                    app.actualizar_opciones();
                }
                false
            } else if matches!(tecla, Tecla::Letra('2') | Tecla::Letra('s')) {
                app.estado = GameState::TurnoBanca;
                app.mensaje = "Turno de la banca".to_string();
                false
            } else {
                matches!(tecla, Tecla::Letra('q'))
            }
        },
        GameState::TurnoBanca => {
            let ghost m0 = banca.mano@;
            let ghost d0 = baraja@;
            loop
                invariant
                    partida_valida(*jugador, *banca, baraja@),
                    mismo_jugador(*old(jugador), *jugador),
                    banca.nombre@ == old(banca).nombre@,
                    banca.partidas_ganadas == old(banca).partidas_ganadas,
                    banca_juega(m0, d0) == banca_juega(banca.mano@, baraja@),
                ensures
                    puntaje_mano(banca.mano@) >= 17 || baraja@.len() == 0,
                decreases baraja@.len(),
            {
                let p = banca.puntaje();
                if p >= 17 {
                    break ;
                }
                if baraja.len() == 0 {
                    break ;
                }
                proof {
                    lemma_partes_mesa(jugador.mano@, banca.mano@, baraja@);
                    lemma_suma_no_negativa(banca.mano@);
                    lemma_ajustar_piso(suma_bruta(banca.mano@), num_ases(banca.mano@));
                    lemma_suma_push(banca.mano@, baraja@.last());
                    lemma_mesa_robo_segunda(jugador.mano@, banca.mano@, baraja@);
                    assert(banca_juega(banca.mano@, baraja@) == banca_juega(
                        banca.mano@.push(baraja@.last()),
                        baraja@.drop_last(),
                    ));
                }
                jugar_turno(banca, baraja, true);
            }
            proof {
                assert(banca_juega(banca.mano@, baraja@) == (banca.mano@, baraja@));
            }
            app.mensaje = determinar_ganador(jugador, banca);
            app.estado = GameState::FinJuego;
            app.actualizar_opciones();
            matches!(tecla, Tecla::Letra('q'))
        },
        GameState::FinJuego => {
            if matches!(tecla, Tecla::Intro | Tecla::Letra('n')) {
                reiniciar_partida(jugador, banca, baraja);
                app.mensaje = "¡Nueva partida!".to_string();
                app.estado = GameState::TurnoJugador;
                app.actualizar_opciones();
                false
            } else {
                matches!(tecla, Tecla::Letra('q'))
            }
        },
    }
}

} // verus!
